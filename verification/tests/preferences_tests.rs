use saywrite::config::{ModelSize, ProviderMode};
use saywrite::dictation::AudioInputDevice;
use saywrite::integration_api::HostStatus;
use saywrite::preferences::{
    device_choice_index, device_for_choice, device_labels, download_failure_label, finish_step,
    host_status_subtitle, install_subtitle, mic_test_labels, mic_test_verdict,
    model_path_from_entry, provider_mode_from_index, provider_mode_index, runtime_rows, FinishStep,
};
use saywrite::runtime::RuntimeProbe;

fn devices() -> Vec<AudioInputDevice> {
    vec![
        AudioInputDevice { id: "alsa_input.usb-mic".to_string(), label: "usb-mic".to_string() },
        AudioInputDevice { id: "alsa_input.pci".to_string(), label: "pci".to_string() },
    ]
}

#[test]
fn mode_rows_round_trip() {
    for mode in [ProviderMode::Local, ProviderMode::Cloud] {
        assert_eq!(provider_mode_from_index(provider_mode_index(mode)), mode);
    }
    assert_eq!(provider_mode_index(ProviderMode::Cloud), 1);
    assert_eq!(provider_mode_from_index(7), ProviderMode::Local);
}

#[test]
fn model_path_entry_is_trimmed() {
    assert_eq!(model_path_from_entry("  /m/x.bin \n").as_deref(), Some("/m/x.bin"));
    assert_eq!(model_path_from_entry("   "), None);
    assert_eq!(install_subtitle(ModelSize::Base, true), "ggml-base.en.bin — installed");
    assert_eq!(install_subtitle(ModelSize::Tiny, false), "ggml-tiny.en.bin — not installed");
}

#[test]
fn device_rows_round_trip() {
    let d = devices();
    assert_eq!(device_labels(&d), vec!["System default", "usb-mic", "pci"]);
    assert_eq!(device_choice_index(&d, None), 0);
    assert_eq!(device_choice_index(&d, Some("alsa_input.pci")), 2);
    assert_eq!(device_choice_index(&d, Some("gone")), 0);
    for id in ["alsa_input.usb-mic", "alsa_input.pci"] {
        let row = device_choice_index(&d, Some(id));
        assert_eq!(device_for_choice(&d, row).as_deref(), Some(id));
    }
    assert_eq!(device_for_choice(&d, 0), None);
    assert_eq!(device_for_choice(&d, 9), None);
}

#[test]
fn diagnostics_rows() {
    let probe = RuntimeProbe {
        local_model_present: false,
        local_model_display: "~/m.bin".to_string(),
        whisper_cli_found: true,
        whisper_cli_display: "/usr/bin/whisper-cli".to_string(),
        acceleration_label: "CPU".to_string(),
        insertion_label: "Direct typing via wtype".to_string(),
        dictation_label: "Ready".to_string(),
        provider_label: "Local".to_string(),
    };
    let rows = runtime_rows(&probe);
    assert_eq!(rows.len(), 6);
    assert_eq!(rows[3], ("whisper.cpp".to_string(), "Found at /usr/bin/whisper-cli".to_string()));
    assert_eq!(rows[4], ("Model".to_string(), "No local model downloaded yet".to_string()));
    assert_eq!(host_status_subtitle(&None).starts_with("Not running"), true);
    let status = HostStatus { status: "ok".to_string(), hotkey_active: true, insertion_available: true };
    assert_eq!(host_status_subtitle(&Some(status)), "ok");
}

#[test]
fn microphone_test_verdicts() {
    assert_eq!(mic_test_verdict(Some(5000), false, Some(124)), Ok(true));
    assert_eq!(mic_test_verdict(Some(5000), false, Some(1)), Ok(true));
    assert_eq!(mic_test_verdict(Some(100), false, Some(124)), Ok(false));
    assert_eq!(mic_test_verdict(None, true, Some(0)), Ok(false));
    assert_eq!(
        mic_test_verdict(None, false, Some(1)),
        Err("GStreamer could not access the microphone.".to_string())
    );
    assert_eq!(
        mic_test_verdict(None, false, None),
        Err("GStreamer could not access the microphone.".to_string())
    );
    let (status, label, go_on) = mic_test_labels(&Ok(true));
    assert_eq!((status.as_str(), label.as_str(), go_on), ("Microphone is working!", "Done!", true));
    let (status, _, go_on) = mic_test_labels(&Ok(false));
    assert!(status.starts_with("Could not detect audio") && !go_on);
    let (_, label, _) = mic_test_labels(&Err("x".to_string()));
    assert_eq!(label, "No usable audio detected");
}

#[test]
fn first_run_finish() {
    assert_eq!(finish_step(ProviderMode::Cloud, false), FinishStep::Complete);
    assert_eq!(finish_step(ProviderMode::Local, true), FinishStep::Complete);
    assert_eq!(finish_step(ProviderMode::Local, false), FinishStep::DownloadModel);
    assert_eq!(download_failure_label("download canceled"), "Download canceled");
    assert_eq!(download_failure_label("curl broke"), "Download failed: curl broke");
}
