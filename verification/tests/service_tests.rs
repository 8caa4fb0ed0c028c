use saywrite::dictation::{DictationError, TranscriptResult};
use saywrite::insertion::{InsertionOutcome, InsertionStatus};
use saywrite::integration_api::{
    INSERTION_RESULT_FAILED, STATE_DONE, STATE_IDLE, STATE_LISTENING, STATE_PROCESSING,
};
use saywrite::service::{sanitize_error, DictationEvent, DictationService, ToggleStep};

fn no_insertion() -> InsertionStatus {
    InsertionStatus {
        available: false,
        capability: "unavailable".to_string(),
        method: "unavailable".to_string(),
    }
}

#[test]
fn sanitize_whisper_not_found() {
    let (kind, msg) = sanitize_error(Some(DictationError::WhisperCliNotFound));
    assert_eq!(kind, INSERTION_RESULT_FAILED);
    assert!(msg.contains("whisper"), "expected whisper mention, got: {msg}");
}

#[test]
fn sanitize_no_local_model() {
    let (kind, msg) = sanitize_error(Some(DictationError::NoLocalModel));
    assert_eq!(kind, INSERTION_RESULT_FAILED);
    assert!(msg.contains("model"), "expected model mention, got: {msg}");
}

#[test]
fn sanitize_no_audio_captured() {
    let (kind, msg) = sanitize_error(Some(DictationError::NoAudioCaptured));
    assert_eq!(kind, INSERTION_RESULT_FAILED);
    assert!(
        msg.contains("microphone") || msg.contains("audio"),
        "expected audio/microphone mention, got: {msg}"
    );
}

#[test]
fn sanitize_missing_runtime_dir() {
    let (kind, msg) = sanitize_error(Some(DictationError::MissingRuntimeDir));
    assert_eq!(kind, INSERTION_RESULT_FAILED);
    assert!(
        msg.contains("directory") || msg.contains("runtime"),
        "expected directory/runtime mention, got: {msg}"
    );
}

#[test]
fn sanitize_generic_error_yields_fallback_message() {
    let (kind, msg) = sanitize_error(None);
    assert_eq!(kind, INSERTION_RESULT_FAILED);
    assert!(msg.contains("unexpected"), "expected fallback message, got: {msg}");
}

#[test]
fn all_sanitized_errors_use_failed_result_kind() {
    let errors: Vec<Option<DictationError>> = vec![
        Some(DictationError::WhisperCliNotFound),
        Some(DictationError::NoLocalModel),
        Some(DictationError::NoAudioCaptured),
        Some(DictationError::MissingRuntimeDir),
        None,
    ];
    for err in errors {
        let (kind, _) = sanitize_error(err);
        assert_eq!(kind, INSERTION_RESULT_FAILED, "all errors must map to failed result kind");
    }
}

#[test]
fn debounce_passes_first_toggle_and_rejects_immediate_repeat() {
    let mut service = DictationService::new(no_insertion());

    let first = service.reject_if_repeated_toggle(0);
    assert!(first.is_none(), "first toggle should not be debounced, got: {first:?}");

    let second = service.reject_if_repeated_toggle(0);
    assert!(second.is_some(), "immediate repeat should be debounced");
    let msg = second.unwrap();
    assert!(
        msg.contains("shortcut") || msg.contains("repeated"),
        "rejection message should explain the debounce, got: {msg}"
    );
}

#[test]
fn debounce_allows_toggle_after_cooldown() {
    let mut service = DictationService::new(no_insertion());

    service.reject_if_repeated_toggle(0);
    // Wait out the 900ms debounce window
    let after_cooldown = service.reject_if_repeated_toggle(950);
    assert!(
        after_cooldown.is_none(),
        "toggle after cooldown should be allowed, got: {after_cooldown:?}"
    );
}

#[test]
fn full_toggle_cycle() {
    let mut service = DictationService::new(no_insertion());
    assert_eq!(service.dictation_state, STATE_IDLE);

    let step = service.begin_toggle(true, 1_000);
    assert!(matches!(step, ToggleStep::Start));
    assert_eq!(service.dictation_state, STATE_PROCESSING);
    let started = service.finish_start(Ok("Listening...".to_string()));
    assert!(started.ok);
    assert_eq!(service.dictation_state, STATE_LISTENING);
    assert_eq!(started.events.len(), 2);

    let step = service.begin_toggle(true, 3_000);
    assert!(matches!(step, ToggleStep::Stop));
    let inserted = service.record_insertion(
        Some(InsertionOutcome {
            result_kind: "copied".to_string(),
            message: "Transcript copied to the clipboard via xclip.".to_string(),
        }),
        no_insertion(),
    );
    assert!(inserted.ok);
    let done = service.finish_stop(
        TranscriptResult { raw_text: "hi".to_string(), cleaned_text: "Hi".to_string() },
        inserted,
    );
    assert!(done.ok);
    assert_eq!(service.dictation_state, STATE_DONE);
    assert_eq!(done.events.len(), 4);
    assert!(matches!(&done.events[1], DictationEvent::TextReady { cleaned_text, .. } if cleaned_text == "Hi"));

    let status = service.get_status(true, no_insertion());
    assert_eq!(
        status.status,
        "Transcript copied to the clipboard via xclip. [done via unavailable]"
    );
}

#[test]
fn busy_and_failed_toggles() {
    let mut service = DictationService::new(no_insertion());
    match service.begin_toggle(false, 0) {
        ToggleStep::Rejected(resp) => {
            assert!(!resp.ok);
            assert!(resp.message.contains("already changing state"));
        }
        _ => panic!("a toggle without the guard must be refused"),
    }
    assert_eq!(service.dictation_state, STATE_IDLE);
    let _ = service.begin_toggle(true, 0);
    let failed = service.finish_start(Err(Some(DictationError::WhisperCliNotFound)));
    assert!(!failed.ok);
    assert_eq!(failed.message, "whisper.cpp is not installed yet.");
    assert_eq!(service.dictation_state, STATE_IDLE);
    let rejected = service.begin_toggle(true, 100);
    assert!(matches!(rejected, ToggleStep::Rejected(_)));
    let failed_insert = service.record_insertion(None, no_insertion());
    assert!(!failed_insert.ok);
    assert_eq!(failed_insert.result_kind, INSERTION_RESULT_FAILED);
}
