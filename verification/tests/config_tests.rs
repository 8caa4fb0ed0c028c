use std::path::PathBuf;

use saywrite::config::{
    config_dir_in, join_path_str, model_path_in, repair_missing_model_path, AppSettings,
    ModelSize, ProviderMode,
};

const DEFAULT_MODEL: &str = "/tmp/saywrite-config-test-default-model";

// The file system is probed by the caller; these tests hand the library what the
// probe found for each path.

#[test]
fn repair_missing_model_path_uses_existing_default_model() {
    let stale_path = "/tmp/saywrite-config-test-stale-flatpak-model".to_string();
    let mut local_model_path = Some(stale_path);

    assert!(repair_missing_model_path(&mut local_model_path, DEFAULT_MODEL, true, false));
    assert_eq!(local_model_path, Some(DEFAULT_MODEL.to_string()));
}

#[test]
fn repair_missing_model_path_preserves_existing_custom_model() {
    let default_model = "/tmp/saywrite-config-test-default-model-preserve";
    let custom_model = "/tmp/saywrite-config-test-custom-model-preserve".to_string();
    let mut local_model_path = Some(custom_model.clone());

    assert!(!repair_missing_model_path(&mut local_model_path, default_model, true, true));
    assert_eq!(local_model_path, Some(custom_model));
}

#[test]
fn repair_missing_model_path_does_nothing_without_default_model() {
    let default_model = "/tmp/saywrite-config-test-missing-default-model";
    let stale_path = "/tmp/saywrite-config-test-stale-model-no-default".to_string();
    let mut local_model_path = Some(stale_path.clone());

    assert!(!repair_missing_model_path(&mut local_model_path, default_model, false, false));
    assert_eq!(local_model_path, Some(stale_path));
}

#[test]
fn repair_missing_model_path_fills_an_unset_path() {
    let mut local_model_path: Option<String> = None;
    assert!(repair_missing_model_path(&mut local_model_path, DEFAULT_MODEL, true, false));
    assert_eq!(local_model_path.as_deref(), Some(DEFAULT_MODEL));

    let mut unset: Option<String> = None;
    assert!(!repair_missing_model_path(&mut unset, DEFAULT_MODEL, false, false));
    assert_eq!(unset, None);
}

#[test]
fn model_sizes_round_trip_through_their_index() {
    for size in [ModelSize::Tiny, ModelSize::Base, ModelSize::Small] {
        assert_eq!(ModelSize::from_index(size.to_index()), size);
    }
    assert_eq!(ModelSize::from_index(7), ModelSize::Base);
    assert_eq!(ModelSize::default(), ModelSize::Base);
    assert_eq!(ModelSize::Small.filename(), "ggml-small.en.bin");
    assert_eq!(ModelSize::Tiny.label(), "tiny.en (~75 MB)");
}

#[test]
fn paths_join_like_pathbuf() {
    assert_eq!(join_path_str("/home/u/.local/share", "saywrite"), "/home/u/.local/share/saywrite");
    assert_eq!(join_path_str("/home/u/", "saywrite"), "/home/u/saywrite");
    assert_eq!(join_path_str("", "saywrite"), "saywrite");
    assert_eq!(join_path_str("/a", "/b"), "/b");
    assert_eq!(config_dir_in(None), ".config/saywrite");
    assert_eq!(
        model_path_in(Some("/d".to_string()), ModelSize::Base),
        "/d/saywrite/models/ggml-base.en.bin"
    );
    for (base, rel) in [("/home/u", "saywrite"), ("/x/", "y"), ("", "z"), ("a", "/abs")] {
        let mut expected = PathBuf::from(base);
        expected.push(rel);
        assert_eq!(join_path_str(base, rel), expected.display().to_string());
    }
}

#[test]
fn settings_defaults_and_repairs() {
    let mut settings = AppSettings::initial("/m/ggml-base.en.bin".to_string(), true);
    assert_eq!(settings.provider_mode, ProviderMode::Local);
    assert_eq!(settings.local_model_path.as_deref(), Some("/m/ggml-base.en.bin"));
    assert_eq!(settings.cloud_api_base, "https://api.openai.com/v1");
    assert_eq!(settings.global_shortcut_label, "Super+Alt+D");
    assert!(!settings.onboarding_complete);
    settings.mark_onboarded();
    assert!(settings.onboarding_complete);

    settings.global_shortcut_label = " f8 ".to_string();
    settings.local_model_path = None;
    let changed = settings.repair_loaded("/m/ggml-base.en.bin", true, false);
    assert!(changed);
    assert_eq!(settings.global_shortcut_label, "Super+Alt+D");
    assert_eq!(settings.local_model_path.as_deref(), Some("/m/ggml-base.en.bin"));
    assert!(!settings.repair_loaded("/m/ggml-base.en.bin", true, true));
    let fresh = AppSettings::initial("/m/x".to_string(), false);
    assert!(fresh.local_model_path.is_none());
}

#[test]
fn model_sizes_have_their_own_paths() {
    let base = Some("/data".to_string());
    let tiny = model_path_in(base.clone(), ModelSize::Tiny);
    let middle = model_path_in(base.clone(), ModelSize::Base);
    let small = model_path_in(base, ModelSize::Small);
    assert_eq!(tiny, "/data/saywrite/models/ggml-tiny.en.bin");
    assert_eq!(middle, "/data/saywrite/models/ggml-base.en.bin");
    assert_eq!(small, "/data/saywrite/models/ggml-small.en.bin");
    assert_ne!(tiny, middle);
    assert_ne!(middle, small);
    assert_ne!(tiny, small);
}

#[test]
fn default_model_is_the_base_size_model() {
    assert_eq!(
        saywrite::config::default_model_path(),
        saywrite::config::model_path_for_size(ModelSize::default())
    );
    assert_eq!(
        saywrite::config::default_model_path(),
        saywrite::config::model_path_for_size(ModelSize::Base)
    );
}
