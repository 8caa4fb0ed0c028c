use saywrite::config::{AppSettings, ModelSize, ProviderMode};
use saywrite::window::{
    download_button_label, entered_api_key, friendly_error_message, insertion_chip, mode_chip,
    setup_request, transcript_counts, window_key, KeyAction, SetupAction, WindowKey, WindowView,
};

const START: &str = "  Press Hotkey or Click to Start  ";

fn local_settings() -> AppSettings {
    let mut s = AppSettings::initial("/m/ggml-base.en.bin".to_string(), true);
    s.provider_mode = ProviderMode::Local;
    s
}

#[test]
fn window_opens_waiting_for_the_hotkey() {
    let v = WindowView::new();
    assert_eq!(v.state_label, "Press your hotkey to start dictation");
    assert_eq!(v.dictate_label, START);
    assert!(!v.dictate_sensitive);
    assert!(!v.listening && !v.transcript_shown && v.setup.is_none());
}

#[test]
fn toggle_cycle_from_the_window() {
    let mut v = WindowView::new();
    v.refresh(None);
    assert_eq!(v.state_label, "Ready");
    assert!(v.dictate_sensitive);

    v.begin_toggle(true);
    assert_eq!(v.state_label, "Starting…");
    assert!(!v.dictate_sensitive && v.spinner_running && v.activity_shown);

    v.apply_toggle_success(true);
    assert!(v.listening && v.waveform_active && v.dictate_stops && v.dictate_sensitive);
    assert_eq!(v.state_label, "Listening…");
    assert_eq!(v.dictate_label, "  Stop Dictation  ");

    v.begin_toggle(false);
    assert_eq!(v.state_label, "Processing…");

    v.apply_toggle_success(false);
    assert!(!v.listening && !v.dictate_stops && v.dictate_sensitive);
    assert_eq!(v.state_label, "Transcript ready");
    assert_eq!(v.dictate_label, START);
}

#[test]
fn toggle_errors_are_worded_for_people() {
    let mut v = WindowView::new();
    v.begin_toggle(true);
    v.apply_toggle_error("SayWrite hit an unexpected error.");
    assert_eq!(v.state_label, "Something went wrong while handling direct typing.");
    assert!(v.dictate_sensitive && !v.listening && !v.spinner_running);

    assert_eq!(
        friendly_error_message("No dictation session is running."),
        "There is no active dictation to stop."
    );
    assert_eq!(
        friendly_error_message("SayWrite could not access a private runtime directory for recordings."),
        "SayWrite could not access a private recording directory."
    );
    assert_eq!(
        friendly_error_message("native integration is not running"),
        "Direct typing is not available right now."
    );
    assert_eq!(friendly_error_message("boom"), "boom");
}

#[test]
fn disconnect_disables_dictation() {
    let mut v = WindowView::new();
    v.apply_toggle_success(true);
    v.apply_integration_disconnect();
    assert_eq!(v.state_label, "Direct Typing unavailable");
    assert!(!v.dictate_sensitive && !v.listening);
    assert_eq!(v.dictate_label, START);
}

#[test]
fn integration_states_drive_the_window() {
    let mut v = WindowView::new();
    v.apply_integration_state("listening");
    assert!(v.listening && v.waveform_shown && v.dictate_sensitive);
    assert_eq!(v.dictate_label, "  Stop Dictating  ");
    v.apply_integration_state("processing");
    assert_eq!(v.state_label, "Processing your transcript…");
    assert!(!v.dictate_sensitive && !v.waveform_shown && v.spinner_running);
    assert!(v.listening);
    v.apply_integration_state("done");
    assert_eq!(v.state_label, "Transcript ready");
    assert!(!v.listening && v.dictate_sensitive);
    v.apply_integration_state("idle");
    assert_eq!(v.state_label, "Press your hotkey to start dictation");
    let before = v.clone();
    v.apply_integration_state("unknown");
    assert_eq!(v.state_label, before.state_label);
    assert_eq!(v.dictate_sensitive, before.dictate_sensitive);
}

#[test]
fn transcripts_prefer_the_cleaned_text() {
    let mut v = WindowView::new();
    v.show_transcript("Hello.", "hello period");
    assert_eq!(v.transcript_text, "Hello.");
    assert_eq!(v.last_cleaned, "Hello.");
    assert!(v.actions_shown && v.copy_sensitive && v.transcript_shown);

    v.show_transcript("", "raw words");
    assert_eq!(v.last_cleaned, "raw words");

    v.show_transcript("", "");
    assert_eq!(v.transcript_text, "Nothing captured.");
    assert!(!v.actions_shown && !v.copy_sensitive);

    v.dismiss_transcript();
    assert!(!v.transcript_shown);
    assert_eq!(v.state_label, "Press your hotkey to start dictation");
}

#[test]
fn insertion_results_are_labelled() {
    let mut v = WindowView::new();
    v.apply_insertion_result(true, "typed", "Text typed with wtype.");
    assert_eq!(v.state_label, "Typed: Text typed with wtype.");
    v.apply_insertion_result(true, "copied", "Transcript copied to the clipboard via xclip.");
    assert_eq!(v.state_label, "Copied: Transcript copied to the clipboard via xclip.");
    v.apply_insertion_result(false, "failed", "no backend");
    assert_eq!(v.state_label, "Insertion failed: no backend");
    v.copied();
    assert_eq!(v.state_label, "Copied to clipboard");
}

#[test]
fn setup_steps_in_order() {
    let mut s = local_settings();
    let r = setup_request(None, false, &s, true, true, true).unwrap();
    assert_eq!(r.state_label, "Starting direct typing support");
    assert_eq!(r.title, "Clipboard Mode is active");
    assert!(r.detail.contains("bringing up"));
    assert!(r.blocks_dictation);
    let r = setup_request(None, true, &s, true, true, true).unwrap();
    assert!(r.detail.contains("still starting"));

    let r = setup_request(Some("typing"), true, &s, false, true, true).unwrap();
    assert_eq!(r.title, "whisper.cpp is missing");
    assert_eq!(r.action, SetupAction::OpenSettings);

    s.model_size = ModelSize::Small;
    let r = setup_request(Some("typing"), true, &s, true, false, false).unwrap();
    assert_eq!(r.title, "Download a local model");
    assert_eq!(r.action, SetupAction::DownloadModel(ModelSize::Small));
    assert!(setup_request(Some("typing"), true, &s, true, false, true).is_none());

    s.provider_mode = ProviderMode::Cloud;
    s.cloud_api_key = "   ".to_string();
    let r = setup_request(Some("typing"), true, &s, false, false, false).unwrap();
    assert_eq!(r.title, "Add your API key");
    assert_eq!(r.action, SetupAction::EnterApiKey);

    s.cloud_api_key = "sk-test".to_string();
    assert!(setup_request(Some("typing"), true, &s, false, false, false).is_none());
    let r = setup_request(Some("clipboard-only"), true, &s, false, false, false).unwrap();
    assert_eq!(r.state_label, "Clipboard Mode is active");
    assert_eq!(r.title, "Direct Typing is unavailable here");
    assert!(!r.blocks_dictation);
    let r = setup_request(Some("notification-only"), true, &s, false, false, false).unwrap();
    assert!(r.detail.starts_with("This desktop can only show the result"));
    let r = setup_request(Some("unavailable"), true, &s, false, false, false).unwrap();
    assert!(r.detail.starts_with("Direct Typing is unavailable on this desktop"));
}

#[test]
fn refresh_blocks_and_clears() {
    let s = local_settings();
    let mut v = WindowView::new();
    v.refresh(setup_request(Some("typing"), true, &s, false, true, true));
    assert_eq!(v.state_label, "Local dictation is not ready yet");
    assert!(!v.dictate_sensitive);
    assert_eq!(v.setup.as_ref().unwrap().title, "whisper.cpp is missing");
    v.refresh(setup_request(Some("typing"), true, &s, true, true, true));
    assert!(v.setup.is_none());
    assert_eq!(v.state_label, "Ready");
    assert!(v.dictate_sensitive);
}

#[test]
fn keys_in_the_main_window() {
    assert_eq!(window_key(0xff0d, false), WindowKey::Enter);
    assert_eq!(window_key(0xff8d, false), WindowKey::Enter);
    assert_eq!(window_key(0xff1b, false), WindowKey::Escape);
    assert_eq!(window_key(0x63, true), WindowKey::CtrlC);
    assert_eq!(window_key(0x63, false), WindowKey::Other);

    let mut v = WindowView::new();
    assert_eq!(v.key_action(WindowKey::Enter), KeyAction::Nothing);
    v.refresh(None);
    assert_eq!(v.key_action(WindowKey::Enter), KeyAction::ToggleDictation);
    assert_eq!(v.key_action(WindowKey::Escape), KeyAction::Nothing);
    assert_eq!(v.key_action(WindowKey::CtrlC), KeyAction::PassOn);
    v.show_transcript("Hi.", "hi");
    assert_eq!(v.key_action(WindowKey::Escape), KeyAction::Dismiss);
    assert_eq!(v.key_action(WindowKey::CtrlC), KeyAction::Copy);
    v.apply_toggle_success(true);
    assert_eq!(v.key_action(WindowKey::Escape), KeyAction::ToggleDictation);
    assert_eq!(v.key_action(WindowKey::Other), KeyAction::PassOn);
}

#[test]
fn chips_counts_and_labels() {
    assert_eq!(insertion_chip(None), ("network-offline-symbolic", "Offline"));
    assert_eq!(insertion_chip(Some("typing")), ("input-keyboard-symbolic", "Direct Typing"));
    assert_eq!(insertion_chip(Some("clipboard-only")), ("edit-copy-symbolic", "Clipboard"));
    assert_eq!(insertion_chip(Some("notification-only")), ("notification-symbolic", "Notification"));
    assert_eq!(insertion_chip(Some("odd")), ("help-browser-symbolic", "Unknown"));
    assert_eq!(mode_chip(ProviderMode::Cloud), ("network-wireless-symbolic", "Cloud"));
    assert_eq!(mode_chip(ProviderMode::Local), ("drive-harddisk-symbolic", "Local"));
    assert_eq!(
        transcript_counts("  two  words\n"),
        ("2 words".to_string(), "13 chars".to_string())
    );
    assert_eq!(transcript_counts(""), ("0 words".to_string(), "0 chars".to_string()));
    assert_eq!(transcript_counts("héllo"), ("1 words".to_string(), "5 chars".to_string()));
    assert_eq!(download_button_label(ModelSize::Tiny), "Download tiny.en (~75 MB)");
    assert_eq!(entered_api_key("  sk-1  "), Ok("sk-1".to_string()));
    assert_eq!(entered_api_key("   "), Err("Add an API key to use Cloud mode".to_string()));
}
