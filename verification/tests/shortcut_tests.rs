use saywrite::host_setup::{restore_gnome_shortcut, suspend_gnome_shortcut};
use saywrite::input::shortcut_to_gnome_binding;
use saywrite::shortcut_capture::{
    capture_shortcut, escape_closes, is_modifier_key, key_label, ShortcutModifiers, KEY_ESCAPE,
    KEY_SPACE,
};

fn mods(super_key: bool, ctrl: bool, alt: bool, shift: bool) -> ShortcutModifiers {
    ShortcutModifiers { super_key, ctrl, alt, shift }
}

const NONE: ShortcutModifiers = ShortcutModifiers { super_key: false, ctrl: false, alt: false, shift: false };

#[test]
fn modifier_keys_alone_are_refused() {
    for keyval in [0xffe1u32, 0xffe2, 0xffe3, 0xffe4, 0xffe7, 0xffe8, 0xffe9, 0xffea, 0xffeb, 0xffec] {
        assert!(is_modifier_key(keyval));
        assert_eq!(
            capture_shortcut(keyval, None, Some("Shift_L".to_string()), mods(true, false, false, false)),
            Err("Press a real key together with your modifiers.")
        );
    }
    assert!(!is_modifier_key(0xffe5));
    assert!(!is_modifier_key(0x64));
}

#[test]
fn key_labels() {
    assert_eq!(key_label(KEY_SPACE, Some(' '), Some("space".to_string())).as_deref(), Some("Space"));
    assert_eq!(key_label(0x64, Some('d'), Some("d".to_string())).as_deref(), Some("D"));
    assert_eq!(key_label(0x37, Some('7'), Some("7".to_string())).as_deref(), Some("7"));
    assert_eq!(key_label(0xffc2, None, Some("F5".to_string())).as_deref(), Some("F5"));
    assert_eq!(
        key_label(0xff55, None, Some("Page_Up".to_string())).as_deref(),
        Some("PageUp")
    );
    assert_eq!(key_label(0x2d, Some('-'), Some("minus".to_string())).as_deref(), Some("minus"));
    assert_eq!(key_label(0x1234, Some('é'), None), None);
}

#[test]
fn shortcuts_need_a_modifier_unless_function_keys() {
    assert_eq!(
        capture_shortcut(0x64, Some('d'), Some("d".to_string()), mods(true, false, true, false)),
        Ok("Super+Alt+D".to_string())
    );
    assert_eq!(
        capture_shortcut(0x64, Some('d'), Some("d".to_string()), mods(true, true, true, true)),
        Ok("Super+Ctrl+Alt+Shift+D".to_string())
    );
    assert_eq!(
        capture_shortcut(0x64, Some('d'), Some("d".to_string()), NONE),
        Err("Use at least one modifier like Super, Ctrl, Alt, or Shift.")
    );
    assert_eq!(
        capture_shortcut(0xffc2, None, Some("F5".to_string()), NONE),
        Ok("F5".to_string())
    );
    assert_eq!(
        capture_shortcut(0x1234, None, None, mods(false, true, false, false)),
        Err("That key cannot be used as a shortcut.")
    );
    assert_eq!(
        capture_shortcut(KEY_SPACE, Some(' '), None, mods(false, true, false, false)),
        Ok("Ctrl+Space".to_string())
    );
}

#[test]
fn captured_shortcuts_become_the_same_gnome_binding() {
    let shortcut =
        capture_shortcut(0x64, Some('d'), Some("d".to_string()), mods(true, true, true, true)).unwrap();
    assert_eq!(shortcut_to_gnome_binding(&shortcut), "<Super><Primary><Alt><Shift>d");
    let shortcut = capture_shortcut(0xffc2, None, Some("F5".to_string()), NONE).unwrap();
    assert_eq!(shortcut_to_gnome_binding(&shortcut), "f5");
    assert_eq!(shortcut_to_gnome_binding("Super+Alt+D"), "<Super><Alt>d");
    assert_eq!(shortcut_to_gnome_binding(" control + shift "), "<Primary><Shift>d");
}

#[test]
fn escape_closes_only_without_modifiers() {
    assert!(escape_closes(KEY_ESCAPE, NONE));
    assert!(!escape_closes(KEY_ESCAPE, mods(false, true, false, false)));
    assert!(!escape_closes(0x64, NONE));
}

#[test]
fn capture_suspends_and_restores_the_gnome_binding() {
    assert_eq!(suspend_gnome_shortcut(Some("ubuntu:GNOME")), Some(String::new()));
    assert_eq!(suspend_gnome_shortcut(Some("KDE")), None);
    assert_eq!(
        restore_gnome_shortcut(Some("GNOME"), "Super+Alt+D"),
        Some("<Super><Alt>d".to_string())
    );
    assert_eq!(restore_gnome_shortcut(None, "Super+Alt+D"), None);
}
