use saywrite::config::{AppSettings, ModelSize, ProviderMode};
use saywrite::integration_api::IntegrationStatus;
use saywrite::model_installer::{
    check_download_size, content_length_args, download_args, download_large_enough,
    download_tick, download_tick_error, model_file_installed, model_url, parse_content_length,
    partial_model_path, DownloadTick, MODEL_BASE_URL,
};
use saywrite::runtime::{detect_acceleration, parse_gpu_name, probe_runtime, shorten_path_in, RuntimeFacts};
use saywrite::text::decimal_string;

#[test]
fn paths_under_home_are_shortened() {
    assert_eq!(shorten_path_in("/home/u/models/a.bin", Some("/home/u".into())), "~/models/a.bin");
    assert_eq!(shorten_path_in("/home/u/models/a.bin", Some("/home/u/".into())), "~/models/a.bin");
    assert_eq!(shorten_path_in("/home/user2/a.bin", Some("/home/u".into())), "/home/user2/a.bin");
    assert_eq!(shorten_path_in("/opt/a.bin", None), "/opt/a.bin");
}

#[test]
fn gpu_and_acceleration_lines() {
    let lspci = "00:02.0 VGA compatible controller: Intel Corporation UHD Graphics 620\n01:00.0 3D controller: NVIDIA\n";
    assert_eq!(
        parse_gpu_name(lspci).as_deref(),
        Some("02.0 VGA compatible controller: Intel Corporation UHD Graphics 620")
    );
    assert_eq!(parse_gpu_name("00:1f.3 Audio device: Intel"), None);
    assert_eq!(parse_gpu_name("Display controller:   \n"), None);
    assert_eq!(detect_acceleration(Some("Vulkan".into()), Some("x".into())), "Vulkan");
    assert_eq!(
        detect_acceleration(None, Some("NVIDIA".into())),
        "GPU detected (NVIDIA). whisper.cpp decides CPU vs GPU at transcription time."
    );
    assert_eq!(
        detect_acceleration(None, None),
        "No GPU details detected. whisper.cpp will decide CPU or GPU at transcription time."
    );
}

#[test]
fn runtime_overview() {
    let mut settings = AppSettings::initial("/m".to_string(), false);
    settings.provider_mode = ProviderMode::Cloud;
    let facts = RuntimeFacts {
        model_path: "/nowhere/ggml-base.en.bin".into(),
        model_present: false,
        whisper_cli: "/nowhere/whisper-cli".into(),
        whisper_found: true,
        acceleration_hint: None,
        gpu_name: None,
        status: Some(IntegrationStatus {
            status: "ok".into(),
            hotkey_active: false,
            insertion_available: true,
            insertion_capability: "clipboard-only".into(),
            insertion_backend: "wl-copy".into(),
        }),
    };
    let p = probe_runtime(&settings, &facts);
    assert_eq!(p.provider_label, "Cloud");
    assert!(!p.local_model_present && p.whisper_cli_found);
    assert_eq!(p.insertion_label, "Clipboard only via wl-copy");
    assert_eq!(p.dictation_label, "Host daemon running, but the global shortcut is not active yet");
    assert!(p.local_model_display.ends_with("ggml-base.en.bin"));
    let facts = RuntimeFacts { status: None, ..facts };
    let p = probe_runtime(&settings, &facts);
    assert_eq!(p.insertion_label, "Clipboard fallback until host integration is running");
    assert_eq!(p.dictation_label, "Install host companion for global hotkey dictation");
}

#[test]
fn model_downloads() {
    assert_eq!(
        model_url(ModelSize::Small),
        format!("{MODEL_BASE_URL}ggml-small.en.bin")
    );
    assert!(partial_model_path(ModelSize::Tiny).ends_with("saywrite/models/ggml-tiny.en.bin.part"));
    assert!(model_file_installed(1001) && !model_file_installed(1000));
    assert!(download_large_enough(1_000_000) && !download_large_enough(999_999));
    assert_eq!(
        download_args("/m/a.part", "https://h/a"),
        vec![
            "-L", "-C", "-", "--silent", "--show-error", "--fail", "--retry", "3", "--retry-delay",
            "2", "-o", "/m/a.part", "https://h/a"
        ]
    );
    assert_eq!(content_length_args("https://h/a"), vec!["-sI", "--max-time", "10", "https://h/a"]);
    assert_eq!(check_download_size(1_000_000), Ok(()));
    assert_eq!(
        check_download_size(512),
        Err("downloaded file is too small (512 bytes) — likely a network error".to_string())
    );
}

#[test]
fn download_polling() {
    assert_eq!(download_tick(true, Some(true)), DownloadTick::Canceled);
    assert_eq!(download_tick(false, None), DownloadTick::Running);
    assert_eq!(download_tick(false, Some(true)), DownloadTick::Finished);
    assert_eq!(download_tick(false, Some(false)), DownloadTick::Failed);
    assert_eq!(download_tick_error(DownloadTick::Canceled), "download canceled");
    assert_eq!(
        download_tick_error(DownloadTick::Failed),
        "download failed — check your internet connection and try again"
    );
}

#[test]
fn content_length_headers() {
    let headers = "HTTP/2 302\r\nlocation: x\r\n\r\nHTTP/2 200\r\nContent-Length: 147951465\r\ncontent-length: 5\r\n";
    assert_eq!(parse_content_length(headers), Some(147951465));
    assert_eq!(parse_content_length("content-length: +12\n"), Some(12));
    assert_eq!(parse_content_length("content-length: 99999999999999999999\n"), None);
    assert_eq!(parse_content_length("Content-Length: abc\ncontent-length: 7\n"), None);
    assert_eq!(parse_content_length("nothing"), None);
}

#[test]
fn decimal_numbers() {
    for n in [0u64, 7, 10, 99, 100, 4242, u64::MAX] {
        assert_eq!(decimal_string(n), n.to_string());
    }
}
