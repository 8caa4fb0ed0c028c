use saywrite::dictation::{DictationError, TranscriptResult};
use saywrite::host_integration::{self, HostEvent};
use saywrite::insertion::InsertionStatus;
use saywrite::integration_api::{
    insertion_capability_label, insertion_result_label, supports_direct_typing, IntegrationStatus,
};
use saywrite::native_integration::{self, IntegrationEvent};
use saywrite::service::{error_message, DictationService, InsertResponse, ServiceRole, ToggleStep};

fn status(available: bool) -> InsertionStatus {
    InsertionStatus {
        available,
        capability: if available { "typing" } else { "unavailable" }.to_string(),
        method: if available { "wtype" } else { "unavailable" }.to_string(),
    }
}

fn full_cycle(service: &mut DictationService) -> Vec<saywrite::service::DictationEvent> {
    assert!(matches!(service.begin_toggle(true, 0), ToggleStep::Start));
    let started = service.finish_start(Ok("Listening...".to_string()));
    assert!(started.ok);
    assert!(matches!(service.begin_toggle(true, 5000), ToggleStep::Stop));
    let insertion = service.record_insertion(None, status(true));
    let transcript = TranscriptResult { raw_text: "hi".into(), cleaned_text: "Hi".into() };
    let done = service.finish_stop(transcript, insertion);
    done.events
}

#[test]
fn host_daemon_words_its_errors_for_itself() {
    let mut host = DictationService::new_host_daemon(status(false));
    assert_eq!(host.role, ServiceRole::HostDaemon);
    assert_eq!(host.last_status, "Host daemon initialized.");
    assert!(matches!(host.begin_toggle(true, 0), ToggleStep::Start));
    let r = host.finish_start(Err(Some(DictationError::WhisperCliNotFound)));
    assert_eq!(r.message, "whisper.cpp is not installed for the host daemon yet.");
    assert_eq!(host.dictation_state, "idle");
    let r = host.record_insertion(None, status(true));
    assert_eq!(r.message, "The host daemon hit an unexpected error.");
    assert_eq!(error_message(None), "The host daemon hit an unexpected error.");
    assert_eq!(error_message(Some(DictationError::NoLocalModel)), "No local model is installed yet.");

    let native = DictationService::new(status(false));
    assert_eq!(native.role, ServiceRole::Integration);
    assert_eq!(native.last_status, "Native integration initialized.");
}

#[test]
fn toggle_events_reach_the_window_in_order() {
    let mut service = DictationService::new(status(true));
    let events = full_cycle(&mut service);
    let (window_events, answer) = native_integration::toggle_dictation(saywrite::service::ToggleResponse {
        ok: false,
        message: "m".into(),
        events,
    });
    assert_eq!(answer, Err("m".to_string()));
    assert_eq!(window_events.len(), 4);
    assert!(matches!(&window_events[0], IntegrationEvent::StateChanged(s) if s == "processing"));
    assert!(matches!(&window_events[1], IntegrationEvent::TextReady { cleaned, raw_text } if cleaned == "Hi" && raw_text == "hi"));
    assert!(matches!(&window_events[2], IntegrationEvent::InsertionResult { ok: false, .. }));
    assert!(matches!(&window_events[3], IntegrationEvent::StateChanged(s) if s == "done"));
}

#[test]
fn toggle_events_reach_host_clients_in_order() {
    let mut service = DictationService::new_host_daemon(status(true));
    let events = full_cycle(&mut service);
    let (host_events, answer) = host_integration::toggle_dictation(saywrite::service::ToggleResponse {
        ok: true,
        message: "typed".into(),
        events,
    });
    assert_eq!(answer, Ok("typed".to_string()));
    assert!(matches!(&host_events[0], HostEvent::StateChanged(s) if s == "processing"));
    assert!(matches!(&host_events[1], HostEvent::TextReady { cleaned, .. } if cleaned == "Hi"));
    assert!(matches!(&host_events[2], HostEvent::InsertionResult { message, .. } if message == "The host daemon hit an unexpected error."));
    assert!(matches!(&host_events[3], HostEvent::StateChanged(s) if s == "done"));
}

#[test]
fn sending_text_reports_once() {
    let ok = InsertResponse { ok: true, result_kind: "copied".into(), message: "Copied.".into() };
    let (event, answer) = native_integration::send_text(ok.clone());
    assert!(matches!(event, IntegrationEvent::InsertionResult { ok: true, ref result_kind, .. } if result_kind == "copied"));
    assert_eq!(answer, Ok("Copied.".to_string()));
    let failed = InsertResponse { ok: false, result_kind: "failed".into(), message: "No.".into() };
    let (event, answer) = host_integration::send_text(failed);
    assert!(matches!(event, HostEvent::InsertionResult { ok: false, .. }));
    assert_eq!(answer, Err("No.".to_string()));
}

#[test]
fn status_and_labels() {
    let s = IntegrationStatus {
        status: "Ready [idle via wtype]".into(),
        hotkey_active: true,
        insertion_available: true,
        insertion_capability: "typing".into(),
        insertion_backend: "wtype".into(),
    };
    let h = host_integration::host_status_of(&s);
    assert_eq!(h.status, "Ready [idle via wtype]");
    assert!(h.hotkey_active && h.insertion_available);
    assert!(host_integration::host_available(&Some(h)));
    assert!(!native_integration::integration_available(&None));
    assert!(native_integration::integration_available(&Some(s)));
    assert!(supports_direct_typing("typing"));
    assert!(!supports_direct_typing("clipboard-only"));
    assert_eq!(insertion_result_label("typed"), "Typed");
    assert_eq!(insertion_result_label("notified"), "Shown");
    assert_eq!(insertion_result_label("other"), "Done");
    assert_eq!(insertion_capability_label("notification-only"), "Notification only");
}
