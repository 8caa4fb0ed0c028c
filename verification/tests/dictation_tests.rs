use saywrite::config::{AppSettings, ProviderMode};
use saywrite::dictation::{
    build_capture_args, capture_override, choose_transcriber, cloud_request, cloud_transcript_from,
    extract_transcript, multipart_body, multipart_boundary, parse_cloud_response,
    parse_default_source, parse_input_devices, recording_location, start_live_check,
    stop_live_check, transcript_result, whisper_args, choose_whisper_cli, mute_args,
    whisper_cli_candidates, CloudError, DictationError, SessionError,
    Transcriber,
};

fn settings(mode: ProviderMode) -> AppSettings {
    let mut s = AppSettings::initial("/m/ggml-base.en.bin".to_string(), true);
    s.provider_mode = mode;
    s
}

const TAIL: [&str; 10] = [
    "!",
    "audioconvert",
    "!",
    "audioresample",
    "!",
    "audio/x-raw,rate=16000,channels=1",
    "!",
    "wavenc",
    "!",
    "filesink",
];

fn expected_args(device: Option<&str>, location: &str) -> Vec<String> {
    let mut v: Vec<String> = vec!["-q".into(), "-e".into(), "pulsesrc".into()];
    if let Some(d) = device {
        v.push(format!("device={d}"));
    }
    v.extend(TAIL.iter().map(|s| s.to_string()));
    v.push(format!("location={location}"));
    v
}

#[test]
fn capture_arguments_prefer_the_chosen_microphone() {
    assert_eq!(
        build_capture_args("/run/a.wav", Some("  usb-mic  "), Some("default-src".to_string())),
        expected_args(Some("usb-mic"), "/run/a.wav")
    );
    assert_eq!(
        build_capture_args("/run/a.wav", Some("   "), Some("default-src".to_string())),
        expected_args(Some("default-src"), "/run/a.wav")
    );
    assert_eq!(build_capture_args("/run/a.wav", None, None), expected_args(None, "/run/a.wav"));
    assert_eq!(capture_override(Some(" x ")).as_deref(), Some("x"));
    assert_eq!(capture_override(Some("")), None);
}

#[test]
fn default_source_skips_monitors() {
    let out = "id 52, type PipeWire:Interface:Node\n    node.name = \"alsa_output.monitor\"\n  * node.name = \"x\"\n    node.name = \"alsa_input.usb-Mic-00.mono-fallback\"\n";
    assert_eq!(
        parse_default_source(out).as_deref(),
        Some("alsa_input.usb-Mic-00.mono-fallback")
    );
    assert_eq!(parse_default_source("nothing here"), None);
}

#[test]
fn input_devices_from_pactl() {
    let out = "1\talsa_output.pci.monitor\tmodule\n2\talsa_input.usb_Blue.analog-stereo\tPipeWire\nbogus\n";
    let devices = parse_input_devices(out);
    assert_eq!(devices.len(), 1);
    assert_eq!(devices[0].id, "alsa_input.usb_Blue.analog-stereo");
    assert_eq!(devices[0].label, "usb Blue analog-stereo");
    assert!(parse_input_devices("").is_empty());
}

#[test]
fn whisper_output_to_transcript() {
    let out = "whisper_init: loading\nsystem_info: AVX\nmain: processing\n[00:00:00.000 --> 00:00:02.000]   Hello there.\n[00:00:02.000 --> 00:00:03.000]\n  plain line  \n\n[unclosed bracket\n";
    assert_eq!(extract_transcript(out), "Hello there. plain line [unclosed bracket");
    assert_eq!(extract_transcript(""), "");
    let r = transcript_result("um hello world".to_string());
    assert_eq!(r.raw_text, "um hello world");
    assert_eq!(r.cleaned_text, "Hello world");
}

#[test]
fn starting_and_stopping_sessions() {
    let local = settings(ProviderMode::Local);
    assert_eq!(
        start_live_check(&local, false, false),
        Err(SessionError::Dictation(DictationError::WhisperCliNotFound))
    );
    assert_eq!(start_live_check(&local, true, true), Err(SessionError::AlreadyRunning));
    assert_eq!(start_live_check(&local, true, false), Ok(local.pause_audio_during_dictation));
    let mut cloud = settings(ProviderMode::Cloud);
    cloud.pause_audio_during_dictation = true;
    assert_eq!(start_live_check(&cloud, false, false), Ok(true));
    assert_eq!(stop_live_check(&cloud, false), Err(SessionError::NotRunning));
    assert_eq!(stop_live_check(&cloud, true), Ok(true));
    assert_eq!(SessionError::AlreadyRunning.message(), "A dictation session is already running.");
    assert_eq!(SessionError::NotRunning.message(), "No dictation session is running.");
    assert_eq!(
        SessionError::Dictation(DictationError::NoAudioCaptured).message(),
        "Microphone recording produced no audio."
    );
    assert_eq!(
        DictationError::MissingRuntimeDir.message(),
        "XDG_RUNTIME_DIR is not set. SayWrite needs a private runtime directory for recordings."
    );
}

#[test]
fn recordings_go_to_the_private_runtime_directory() {
    assert_eq!(
        recording_location(Some("/run/user/1000".to_string()), 1700000000123),
        Ok((
            "/run/user/1000/saywrite".to_string(),
            "/run/user/1000/saywrite/dictation-1700000000123.wav".to_string()
        ))
    );
    assert_eq!(
        recording_location(Some("/run/user/1000/".to_string()), 0),
        Ok(("/run/user/1000/saywrite".to_string(), "/run/user/1000/saywrite/dictation-0.wav".to_string()))
    );
    assert_eq!(
        recording_location(None, 5),
        Err(SessionError::Dictation(DictationError::MissingRuntimeDir))
    );
}

#[test]
fn transcriber_choice() {
    let local = settings(ProviderMode::Local);
    assert_eq!(
        choose_transcriber(&local, "/m/x.bin".to_string(), false).unwrap_err(),
        DictationError::NoLocalModel
    );
    match choose_transcriber(&local, "/m/x.bin".to_string(), true) {
        Ok(Transcriber::Local { model_path }) => assert_eq!(model_path, "/m/x.bin"),
        other => panic!("unexpected {other:?}"),
    }
    assert!(matches!(
        choose_transcriber(&settings(ProviderMode::Cloud), String::new(), false),
        Ok(Transcriber::Cloud)
    ));
    assert_eq!(
        whisper_args("/a.wav", "/m.bin"),
        vec!["--file", "/a.wav", "--model", "/m.bin", "--language", "en", "--no-timestamps"]
    );
}

#[test]
fn cloud_requests() {
    let mut s = settings(ProviderMode::Cloud);
    assert_eq!(cloud_request(&s, "b").unwrap_err(), CloudError::MissingApiKey);
    s.cloud_api_key = "sk-1".to_string();
    s.cloud_api_base = "https://api.example.com/v1//".to_string();
    let q = cloud_request(&s, "----SayWrite42").unwrap();
    assert_eq!(q.url, "https://api.example.com/v1/audio/transcriptions");
    assert_eq!(q.authorization, "Bearer sk-1");
    assert_eq!(q.content_type, "multipart/form-data; boundary=----SayWrite42");
    assert_eq!(multipart_boundary(42), "----SayWrite42");
    assert_eq!(CloudError::MissingText.message(), "Cloud response missing 'text' field");
}

#[test]
fn multipart_body_layout() {
    let body = multipart_body("BND", &[1u8, 2, 3]);
    let mut expected: Vec<u8> = Vec::new();
    expected.extend_from_slice(b"--BND\r\nContent-Disposition: form-data; name=\"file\"; filename=\"audio.wav\"\r\nContent-Type: audio/wav\r\n\r\n");
    expected.extend_from_slice(&[1, 2, 3]);
    expected.extend_from_slice(b"\r\n--BND\r\nContent-Disposition: form-data; name=\"model\"\r\n\r\nwhisper-1\r\n");
    expected.extend_from_slice(b"--BND\r\nContent-Disposition: form-data; name=\"language\"\r\n\r\nen\r\n");
    expected.extend_from_slice(b"--BND--\r\n");
    assert_eq!(body, expected);
}

#[test]
fn cloud_replies_through_serde_json() {
    assert_eq!(parse_cloud_response("{\"text\": \"hello\"}"), Ok("hello".to_string()));
    assert_eq!(parse_cloud_response("{\"text\": \"caf\\u00e9\"}"), Ok("café".to_string()));
    assert_eq!(parse_cloud_response("{\"other\": 1}"), Err(CloudError::MissingText));
    assert_eq!(parse_cloud_response("{\"text\": 3}"), Err(CloudError::MissingText));
    assert_eq!(parse_cloud_response("not json"), Err(CloudError::InvalidResponse));
    assert_eq!(cloud_transcript_from(None), Err(CloudError::InvalidResponse));
    assert_eq!(cloud_transcript_from(Some(None)), Err(CloudError::MissingText));
    assert_eq!(cloud_transcript_from(Some(Some("x".to_string()))), Ok("x".to_string()));
}

#[test]
fn whisper_tool_discovery() {
    let c = whisper_cli_candidates("/src/saywrite");
    assert_eq!(
        c,
        vec![
            "/app/bin/whisper-cli",
            "/src/saywrite/vendor/whisper.cpp/build/bin/whisper-cli",
            "/src/saywrite/vendor/whisper.cpp/build/bin/main",
        ]
    );
    assert_eq!(choose_whisper_cli(Some("/opt/w".into()), &c, &vec![true, true, true]), "/opt/w");
    assert_eq!(choose_whisper_cli(None, &c, &vec![false, true, true]), c[1]);
    assert_eq!(choose_whisper_cli(None, &c, &vec![false, false, false]), "whisper-cli");
    assert_eq!(mute_args(true), vec!["set-mute", "@DEFAULT_AUDIO_SINK@", "1"]);
    assert_eq!(mute_args(false), vec!["set-mute", "@DEFAULT_AUDIO_SINK@", "0"]);
}
