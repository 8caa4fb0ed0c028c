use saywrite::insertion::{
    backend_failure, backend_name, backend_outcome, candidate_backends_for, capability_for_backend,
    describe_method, detect_backend, insertion_failure_message, is_blank, notification_preview,
    probe, result_kind_for_backend, Backend,
};
use saywrite::integration_api::{
    INSERTION_CAPABILITY_CLIPBOARD_ONLY, INSERTION_CAPABILITY_NOTIFICATION_ONLY,
    INSERTION_CAPABILITY_TYPING, INSERTION_CAPABILITY_UNAVAILABLE, INSERTION_RESULT_COPIED,
    INSERTION_RESULT_FAILED, INSERTION_RESULT_NOTIFIED, INSERTION_RESULT_TYPED,
};

#[test]
fn classifies_typing_backends_honestly() {
    assert_eq!(capability_for_backend(Backend::IbusEngine), INSERTION_CAPABILITY_TYPING);
    assert_eq!(capability_for_backend(Backend::Wtype), INSERTION_CAPABILITY_TYPING);
    assert_eq!(capability_for_backend(Backend::Xdotool), INSERTION_CAPABILITY_TYPING);
}

#[test]
fn classifies_clipboard_and_notification_backends_separately() {
    assert_eq!(
        capability_for_backend(Backend::WlClipboard),
        INSERTION_CAPABILITY_CLIPBOARD_ONLY
    );
    assert_eq!(
        capability_for_backend(Backend::NotifySend),
        INSERTION_CAPABILITY_NOTIFICATION_ONLY
    );
    assert_eq!(
        capability_for_backend(Backend::Unavailable),
        INSERTION_CAPABILITY_UNAVAILABLE
    );
}

#[test]
fn reports_result_kind_for_each_backend_honestly() {
    assert_eq!(result_kind_for_backend(Backend::IbusEngine), INSERTION_RESULT_TYPED);
    assert_eq!(result_kind_for_backend(Backend::Wtype), INSERTION_RESULT_TYPED);
    assert_eq!(result_kind_for_backend(Backend::Xdotool), INSERTION_RESULT_TYPED);
    assert_eq!(result_kind_for_backend(Backend::WlClipboard), INSERTION_RESULT_COPIED);
    assert_eq!(result_kind_for_backend(Backend::Xclip), INSERTION_RESULT_COPIED);
    assert_eq!(result_kind_for_backend(Backend::Xsel), INSERTION_RESULT_COPIED);
    assert_eq!(result_kind_for_backend(Backend::NotifySend), INSERTION_RESULT_NOTIFIED);
    assert_eq!(result_kind_for_backend(Backend::Unavailable), INSERTION_RESULT_FAILED);
}

#[test]
fn prefers_ibus_on_gnome_wayland() {
    let backends = candidate_backends_for(
        "wayland",
        true,
        true,
        &[
            Backend::Wtype,
            Backend::WlClipboard,
            Backend::NotifySend,
            Backend::IbusEngine,
        ],
    );
    assert_eq!(backends.first().copied(), Some(Backend::IbusEngine));
}

#[test]
fn prefers_typing_backend_on_x11() {
    let backends = candidate_backends_for(
        "x11",
        false,
        false,
        &[Backend::Xclip, Backend::Xdotool, Backend::NotifySend],
    );
    assert_eq!(backends.first().copied(), Some(Backend::Xdotool));
}

#[test]
fn falls_back_to_clipboard_on_unknown_session_type() {
    let backends = candidate_backends_for(
        "tty",
        false,
        false,
        &[Backend::Wtype, Backend::Xdotool, Backend::Xclip, Backend::NotifySend],
    );
    assert_eq!(backends, vec![Backend::Xclip, Backend::NotifySend]);
}

#[test]
fn returns_unavailable_when_no_backends_exist() {
    let backends = candidate_backends_for("wayland", false, false, &[]);
    assert_eq!(backends, vec![Backend::Unavailable]);
}

#[test]
fn prefers_wtype_on_non_gnome_wayland_even_if_ibus_exists() {
    let backends = candidate_backends_for(
        "wayland",
        false,
        true,
        &[Backend::IbusEngine, Backend::Wtype, Backend::WlClipboard],
    );
    assert_eq!(backends, vec![Backend::Wtype, Backend::WlClipboard]);
}

#[test]
fn session_type_is_compared_ignoring_case() {
    let backends = candidate_backends_for("X11", false, false, &[Backend::Xdotool]);
    assert_eq!(backends, vec![Backend::Xdotool]);
}

#[test]
fn full_priority_order() {
    let all = [
        Backend::NotifySend,
        Backend::Xsel,
        Backend::Xclip,
        Backend::WlClipboard,
        Backend::Xdotool,
        Backend::Wtype,
        Backend::IbusEngine,
    ];
    assert_eq!(
        candidate_backends_for("wayland", true, true, &all),
        vec![
            Backend::IbusEngine,
            Backend::WlClipboard,
            Backend::Xclip,
            Backend::Xsel,
            Backend::NotifySend
        ]
    );
}

#[test]
fn detects_first_backend_and_describes_it() {
    let backends = vec![Backend::Wtype, Backend::WlClipboard];
    assert_eq!(detect_backend(&backends), Backend::Wtype);
    assert_eq!(detect_backend(&vec![]), Backend::Unavailable);
    assert_eq!(backend_name(Backend::WlClipboard), "wl-copy");
    assert_eq!(
        describe_method(
            Backend::IbusEngine,
            true,
            Some("/ctx/2".to_string()),
            Some("xkb:us::eng".to_string())
        ),
        "ibus-engine; ibus:xkb:us::eng @ /ctx/2"
    );
    assert_eq!(
        describe_method(Backend::IbusEngine, true, Some("/ctx/2".to_string()), None),
        "ibus-engine; ibus-context:/ctx/2"
    );
    assert_eq!(
        describe_method(Backend::Wtype, false, Some("/ctx/2".to_string()), None),
        "wtype"
    );
    let status = probe(&vec![Backend::Unavailable], false, None, None);
    assert!(!status.available);
    assert_eq!(status.capability, INSERTION_CAPABILITY_UNAVAILABLE);
    assert_eq!(status.method, "unavailable");
}

#[test]
fn outcome_messages_per_backend() {
    let outcome = backend_outcome(Backend::Xclip).unwrap();
    assert_eq!(outcome.result_kind, INSERTION_RESULT_COPIED);
    assert_eq!(outcome.message, "Transcript copied to the clipboard via xclip.");
    assert_eq!(
        backend_outcome(Backend::Unavailable).unwrap_err(),
        "no insertion backend is available"
    );
    assert_eq!(backend_failure(Backend::Wtype, "boom"), "wtype: boom");
    assert_eq!(
        insertion_failure_message(&vec!["wtype: boom".to_string(), "xclip: gone".to_string()]),
        "All insertion backends failed: wtype: boom | xclip: gone"
    );
    assert!(insertion_failure_message(&vec![]).starts_with("No supported insertion backend found."));
    assert!(is_blank("  \n\t"));
    assert!(!is_blank(" a "));
}

#[test]
fn notification_preview_cuts_long_text() {
    let long: String = std::iter::repeat('x').take(301).collect();
    let preview = notification_preview(&long);
    assert_eq!(preview.chars().count(), 303);
    assert!(preview.ends_with("..."));
    assert_eq!(notification_preview("short"), "short");
}
