use saywrite::config::AppSettings;
use saywrite::input::{
    activation_is_ours, custom_shortcut_hint, desktop_is_gnome, engine_path_for,
    gnome_shortcut_active, gnome_shortcut_hint, gnome_wayland, gsettings_value, is_activation,
    is_portal_response, parse_engine_name, parse_ibus_address, parse_object_path,
    portal_request_path, portal_response_outcome, portal_tokens, preferred_on_this_desktop, probe,
    CommitWait, HotkeyEnvironment, IbusBridge, ENGINE_PATH,
};

fn env(portal_active: bool, portal_available: bool, gnome: bool, gnome_active: bool) -> HotkeyEnvironment {
    HotkeyEnvironment {
        portal_active,
        portal_available,
        gnome_desktop: gnome,
        gnome_shortcut_active: gnome_active,
    }
}

#[test]
fn desktop_detection() {
    assert!(desktop_is_gnome("ubuntu:GNOME"));
    assert!(desktop_is_gnome("gnome"));
    assert!(!desktop_is_gnome("GNOME-Flashback-x"));
    assert!(gnome_wayland(Some("ubuntu:GNOME"), Some("wayland")));
    assert!(!gnome_wayland(Some("KDE"), Some("wayland")));
    assert!(!gnome_wayland(None, Some("wayland")));
    assert!(preferred_on_this_desktop(Some("WAYLAND")));
    assert!(!preferred_on_this_desktop(Some("x11")));
    assert!(!preferred_on_this_desktop(None));
}

#[test]
fn hotkey_status_in_each_environment() {
    let settings = AppSettings::initial("/m".to_string(), false);
    let s = probe(&settings, env(true, true, true, true));
    assert!(s.active);
    assert_eq!(s.message, "GlobalShortcuts portal active for Super+Alt+D.");
    assert_eq!(s.setup_hint, "");
    let s = probe(&settings, env(false, true, true, true));
    assert!(!s.active);
    assert_eq!(s.message, "GlobalShortcuts portal detected. Registration pending for Super+Alt+D.");
    assert_eq!(s.setup_hint, custom_shortcut_hint("Super+Alt+D"));
    let s = probe(&settings, env(false, false, true, true));
    assert!(s.active);
    assert_eq!(s.message, "GNOME shortcut fallback active for Super+Alt+D.");
    let s = probe(&settings, env(false, false, true, false));
    assert!(!s.active);
    assert_eq!(s.setup_hint, gnome_shortcut_hint());
    let s = probe(&settings, env(false, false, false, false));
    assert_eq!(
        s.message,
        "No supported global shortcut backend detected. Super+Alt+D is not armed automatically."
    );
    assert!(custom_shortcut_hint("F9").starts_with("Create a desktop shortcut for `F9` that runs: busctl"));
}

#[test]
fn gnome_fallback_binding_checks() {
    assert_eq!(gsettings_value("  'Super+Alt+D'\n"), "Super+Alt+D");
    assert!(gnome_shortcut_active("Super+Alt+D", Some("/usr/bin/saywrite-dictation.sh"), Some("<Super><Alt>d")));
    assert!(gnome_shortcut_active(
        "Super+Alt+D",
        Some("/home/u/saywrite/scripts/run-global-dictation.sh"),
        Some("<Super><Alt>d")
    ));
    assert!(!gnome_shortcut_active("Super+Alt+D", Some("/bin/true"), Some("<Super><Alt>d")));
    assert!(!gnome_shortcut_active("Super+Alt+D", Some("/usr/bin/saywrite-dictation.sh"), Some("<Super>d")));
    assert!(!gnome_shortcut_active("Super+Alt+D", None, Some("<Super><Alt>d")));
}

#[test]
fn ibus_replies_and_address() {
    assert_eq!(parse_ibus_address("unix:path=/tmp/ibus\n").as_deref(), Some("unix:path=/tmp/ibus"));
    assert_eq!(parse_ibus_address("(null)\n"), None);
    assert_eq!(parse_ibus_address("  \n"), None);
    assert_eq!(engine_path_for("io.github.saywrite.Engine"), Ok(ENGINE_PATH.to_string()));
    assert_eq!(
        engine_path_for("xkb:us::eng"),
        Err("SayWrite cannot create unknown engine xkb:us::eng".to_string())
    );
    let path = "/org/freedesktop/IBus/InputContext_7";
    assert_eq!(parse_object_path(&format!("(objectpath '{path}',)")).as_deref(), Some(path));
    let engine = "m17n:hi:itrans";
    assert_eq!(
        parse_engine_name(&format!("(<'IBusEngineDesc', {{}}, '{engine}', 'x'>,)")).as_deref(),
        Some(engine)
    );
}

#[test]
fn ibus_commits_one_text_at_a_time() {
    let mut bridge = IbusBridge::new();
    assert_eq!(
        bridge.begin_commit("   ", true, None),
        Err("No text was provided for IBus insertion.".to_string())
    );
    assert_eq!(
        bridge.begin_commit("hi", false, None),
        Err("no focused IBus input context is available".to_string())
    );
    assert_eq!(bridge.begin_commit("hi", true, None), Ok("xkb:us::eng".to_string()));
    assert_eq!(
        bridge.begin_commit("again", true, Some("xkb:de::ger".to_string())),
        Err("SayWrite is already committing text through the IBus bridge".to_string())
    );
    let pending = bridge.flush_pending_commit().unwrap();
    assert_eq!(pending.text, "hi");
    assert_eq!(pending.previous_engine, "xkb:us::eng");
    assert!(bridge.pending_commit.is_none());
    assert_eq!(
        bridge.finish_commit(CommitWait::Committed("Text committed through the SayWrite IBus engine.".into())),
        Ok("Text committed through the SayWrite IBus engine.".to_string())
    );

    assert_eq!(bridge.begin_commit("x", true, Some("xkb:de::ger".into())), Ok("xkb:de::ger".to_string()));
    assert_eq!(
        bridge.finish_commit(CommitWait::TimedOut),
        Err("Timed out waiting for the SayWrite IBus engine to commit text".to_string())
    );
    assert!(bridge.pending_commit.is_none());
    assert!(bridge.begin_commit("y", true, None).is_ok());
    bridge.clear_pending_commit();
    assert!(bridge.pending_commit.is_none());
    assert_eq!(
        bridge.finish_commit(CommitWait::Dropped),
        Err("SayWrite IBus engine dropped the pending commit".to_string())
    );
    assert_eq!(bridge.finish_commit(CommitWait::Refused("no".into())), Err("no".to_string()));
}

#[test]
fn global_shortcuts_portal_conversation() {
    let t = portal_tokens(4242);
    assert_eq!(t.request, "saywrite_4242");
    assert_eq!(t.session, "saywrite_session_4242");
    assert_eq!(t.bind, "saywrite_bind_4242");
    assert_eq!(
        portal_request_path(":1.77", &t.request),
        "/org/freedesktop/portal/desktop/request/1_77/saywrite_4242"
    );
    assert!(is_activation(Some("org.freedesktop.portal.GlobalShortcuts"), Some("Activated")));
    assert!(!is_activation(Some("org.freedesktop.portal.GlobalShortcuts"), Some("Deactivated")));
    assert!(!is_activation(None, Some("Activated")));
    assert!(activation_is_ours("/s/1", "toggle-dictation", "/s/1"));
    assert!(!activation_is_ours("/s/2", "toggle-dictation", "/s/1"));
    assert!(!activation_is_ours("/s/1", "other", "/s/1"));
    let req = "/org/freedesktop/portal/desktop/request/1_77/saywrite_4242";
    assert!(is_portal_response(Some(req), Some("org.freedesktop.portal.Request"), Some("Response"), req));
    assert!(!is_portal_response(Some("/x"), Some("org.freedesktop.portal.Request"), Some("Response"), req));
    assert_eq!(
        portal_response_outcome(0, Some("/org/freedesktop/portal/desktop/session/1_77/s".into())),
        Ok("/org/freedesktop/portal/desktop/session/1_77/s".to_string())
    );
    assert_eq!(portal_response_outcome(0, Some(String::new())), Ok("/org/freedesktop/portal/desktop".to_string()));
    assert_eq!(portal_response_outcome(0, None), Ok("/org/freedesktop/portal/desktop".to_string()));
    assert_eq!(
        portal_response_outcome(2, None),
        Err("Portal request denied (response code 2)".to_string())
    );
}
