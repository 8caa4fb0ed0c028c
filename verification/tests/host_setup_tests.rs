use saywrite::host_setup::{
    binding_mismatch_message, check_binding_written, dependency_label, dependency_package_hint,
    desktop_label, gnome_shortcut_write, gnome_shortcuts_supported, gsettings_get_args,
    gsettings_set_args, hands_free_command_path, host_diagnostics, host_profile,
    host_setup_status, legacy_host_paths, missing_requirements, parse_os_release,
    requirements_for_profile, restore_gnome_shortcut, shortcut_needs_repair, suspend_gnome_shortcut,
    HostProfile, HANDS_FREE_PATH,
    HANDS_FREE_SCHEMA_KEY, LEGACY_KEYBINDING_PATH, LEGACY_QUICK_KEYBINDING_PATH, RECONCILE_SCRIPT,
};
use saywrite::integration_api::HostStatus;

#[test]
fn session_profiles() {
    assert_eq!(host_profile("ubuntu:GNOME", "wayland"), HostProfile::GnomeWayland);
    assert_eq!(host_profile("sway", "Wayland"), HostProfile::OtherWayland);
    assert_eq!(host_profile("GNOME", "x11"), HostProfile::X11);
    assert_eq!(host_profile("GNOME", "tty"), HostProfile::Other);
    assert_eq!(desktop_label(HostProfile::GnomeWayland, None, None), "GNOME Wayland");
    assert_eq!(desktop_label(HostProfile::Other, Some("KDE"), None), "KDE (unknown session)");
    assert_eq!(desktop_label(HostProfile::Other, None, Some("tty")), "Unknown desktop (tty)");
    assert!(host_setup_status(&None).host_running == false);
    let status = HostStatus { status: "s".into(), hotkey_active: false, insertion_available: false };
    assert!(host_setup_status(&Some(status)).host_running);
}

#[test]
fn requirements_and_dependency_labels() {
    let reqs = requirements_for_profile(HostProfile::GnomeWayland);
    let names: Vec<&str> = reqs.iter().map(|r| r.command).collect();
    assert_eq!(names, vec!["ibus", "gdbus", "busctl"]);
    assert!(requirements_for_profile(HostProfile::Other).is_empty());
    let missing = missing_requirements(&reqs, &vec![true, false, false]);
    assert_eq!(missing.len(), 2);
    assert_eq!(
        dependency_label(HostProfile::GnomeWayland, &missing),
        "Missing GNOME Wayland tools: gdbus, busctl."
    );
    assert_eq!(
        dependency_label(HostProfile::X11, &vec![]),
        "X11 checks look ready for Direct Typing."
    );
}

#[test]
fn package_hints_on_debian_family() {
    let os = parse_os_release("NAME=\"Zorin OS\"\nID=zorin\nID_LIKE=\"ubuntu debian\"\nbroken line\n");
    assert_eq!(os[0], ("NAME".to_string(), "Zorin OS".to_string()));
    assert_eq!(os.len(), 3);
    let x11 = requirements_for_profile(HostProfile::X11);
    let gnome = requirements_for_profile(HostProfile::GnomeWayland);
    let mut missing = x11.clone();
    missing.extend(gnome.iter().copied());
    assert_eq!(
        dependency_package_hint(&os, &missing).as_deref(),
        Some("Ubuntu/Zorin packages: sudo apt install xdotool systemd ibus libglib2.0-bin")
    );
    let fedora = parse_os_release("ID=fedora\n");
    assert_eq!(dependency_package_hint(&fedora, &missing), None);
    assert_eq!(dependency_package_hint(&os, &vec![]), None);
    let d = host_diagnostics(HostProfile::X11, None, None, &x11, &os);
    assert_eq!(d.desktop_label, "X11");
    assert_eq!(d.host_files_label, "Direct typing is built into the native app.");
    assert_eq!(d.dependency_label, "Missing X11 tools: xdotool, busctl.");
    assert_eq!(d.package_hint.as_deref(), Some("Ubuntu/Zorin packages: sudo apt install xdotool systemd"));
}

#[test]
fn gnome_keybinding_install() {
    assert!(gnome_shortcuts_supported(Some("ubuntu:GNOME")));
    assert!(!gnome_shortcuts_supported(None));
    assert_eq!(
        gnome_shortcut_write("Super+Alt+D", None).unwrap_err(),
        "dictation launcher not found; install the native package or run from the repo checkout"
    );
    let w = gnome_shortcut_write("Super+Alt+D", Some("/usr/bin/saywrite-dictation.sh".into())).unwrap();
    assert_eq!(w.reconcile[0], "python3");
    assert_eq!(w.reconcile[1], "-c");
    assert_eq!(w.reconcile[2], RECONCILE_SCRIPT);
    assert!(RECONCILE_SCRIPT.starts_with("import ast, subprocess, sys\n"));
    assert_eq!(w.reconcile[3..].to_vec(), vec![HANDS_FREE_PATH, LEGACY_KEYBINDING_PATH, LEGACY_QUICK_KEYBINDING_PATH]);
    assert_eq!(w.fields[0], ("name".to_string(), "SayWrite Hands-Free Dictation".to_string()));
    assert_eq!(w.fields[1], ("command".to_string(), "/usr/bin/saywrite-dictation.sh".to_string()));
    assert_eq!(w.fields[2], ("binding".to_string(), "<Super><Alt>d".to_string()));
    assert_eq!(w.expected_binding, "<Super><Alt>d");
    assert_eq!(
        gsettings_set_args("binding", "<Super>d"),
        vec!["gsettings", "set", HANDS_FREE_SCHEMA_KEY, "binding", "<Super>d"]
    );
    assert_eq!(gsettings_get_args("command"), vec!["gsettings", "get", HANDS_FREE_SCHEMA_KEY, "command"]);
}

#[test]
fn keybinding_read_back_is_checked() {
    assert_eq!(check_binding_written("<Super><Alt>d", "<Super><Alt>d"), Ok(()));
    assert_eq!(
        check_binding_written("", "<Super><Alt>d"),
        Err("GNOME accepted the keybinding write but binding is \"\", expected \"<Super><Alt>d\"".to_string())
    );
    assert_eq!(
        check_binding_written("a\"b", "x"),
        Err("GNOME accepted the keybinding write but binding is \"a\\\"b\", expected \"x\"".to_string())
    );
    assert_eq!(binding_mismatch_message("A", "B"), "GNOME accepted the keybinding write but binding is A, expected B");
}

#[test]
fn launcher_and_repair_decisions() {
    assert_eq!(
        hands_free_command_path(true, Some("/repo/scripts/run-global-dictation.sh".into())).as_deref(),
        Some("/usr/bin/saywrite-dictation.sh")
    );
    assert_eq!(
        hands_free_command_path(false, Some("/repo/scripts/run-global-dictation.sh".into())).as_deref(),
        Some("/repo/scripts/run-global-dictation.sh")
    );
    assert_eq!(hands_free_command_path(false, None), None);
    assert!(shortcut_needs_repair("Super+Alt+D", "", "/usr/bin/saywrite-dictation.sh", None));
    assert!(shortcut_needs_repair("Super+Alt+D", "<Super>d", "/x", None));
    assert!(!shortcut_needs_repair("Super+Alt+D", "<Super><Alt>d", "/x", None));
    assert!(shortcut_needs_repair("Super+Alt+D", "<Super><Alt>d", "/x", Some("/y")));
    assert!(shortcut_needs_repair("Super+Alt+D", "<Super><Alt>d", "", Some("")));
}

#[test]
fn legacy_companion_files() {
    assert_eq!(
        legacy_host_paths(Some("/home/u".into()), None, None),
        vec![
            "/home/u/.config/systemd/user/saywrite-host.service",
            "/home/u/.local/share/dbus-1/services/io.github.saywrite.Host.service",
            "/home/u/.local/bin/saywrite-host",
        ]
    );
    assert_eq!(
        legacy_host_paths(None, Some("/cfg".into()), Some("/data/".into())),
        vec![
            "/cfg/systemd/user/saywrite-host.service",
            "/data/dbus-1/services/io.github.saywrite.Host.service",
        ]
    );
    assert!(legacy_host_paths(None, None, None).is_empty());
}

#[test]
fn suspend_then_restore_gives_the_binding_back_on_gnome() {
    assert_eq!(suspend_gnome_shortcut(Some("ubuntu:GNOME")), Some(String::new()));
    assert_eq!(
        restore_gnome_shortcut(Some("ubuntu:GNOME"), "Super+Alt+D"),
        Some("<Super><Alt>d".to_string())
    );
    assert_eq!(
        restore_gnome_shortcut(Some("GNOME"), "Ctrl+Shift+F9"),
        Some("<Primary><Shift>f9".to_string())
    );
}

#[test]
fn suspend_and_restore_change_nothing_off_gnome() {
    assert_eq!(suspend_gnome_shortcut(Some("KDE")), None);
    assert_eq!(restore_gnome_shortcut(Some("KDE"), "Super+Alt+D"), None);
    assert_eq!(suspend_gnome_shortcut(None), None);
    assert_eq!(restore_gnome_shortcut(None, "Super+Alt+D"), None);
}
