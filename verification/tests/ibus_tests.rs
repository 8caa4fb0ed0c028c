use saywrite::input::{parse_engine_name, parse_object_path};

#[test]
fn ibus_parses_object_path_from_gdbus_output() {
    let output = "(objectpath '/org/freedesktop/IBus/InputContext_2',)";
    assert_eq!(
        parse_object_path(output).as_deref(),
        Some("/org/freedesktop/IBus/InputContext_2")
    );
}

#[test]
fn ibus_parses_engine_name_from_gdbus_output() {
    let output = "(<'IBusEngineDesc', {}, 'xkb:us::eng', 'English (US)', '', 'en', '', '', '', uint32 0, '', '', '', '', '', '', '', ''>,)";
    assert_eq!(parse_engine_name(output).as_deref(), Some("xkb:us::eng"));
}

#[test]
fn ibus_parses_outputs_with_extra_whitespace() {
    let object_output =
        "  random prefix (objectpath '/org/freedesktop/IBus/InputContext_42',)  ";
    let engine_output =
        "  (< 'IBusEngineDesc', {},   'xkb:gb::eng', 'English (UK)', '', 'en_GB', '', '', '', uint32 0, '', '', '', '', '', '', '', ''>,)  ";
    assert_eq!(
        parse_object_path(object_output).as_deref(),
        Some("/org/freedesktop/IBus/InputContext_42")
    );
    assert_eq!(
        parse_engine_name(engine_output).as_deref(),
        Some("xkb:gb::eng")
    );
}

#[test]
fn ibus_parses_high_numbered_input_context_paths() {
    let output = "(objectpath '/org/freedesktop/IBus/InputContext_184467',)";
    assert_eq!(
        parse_object_path(output).as_deref(),
        Some("/org/freedesktop/IBus/InputContext_184467")
    );
}

#[test]
fn ibus_parses_engine_names_with_unusual_locale_identifiers() {
    let output = "(<'IBusEngineDesc', {}, 'typing-booster:sv_SE.UTF-8', 'Swedish', '', 'sv_SE.UTF-8', '', '', '', uint32 0, '', '', '', '', '', '', '', ''>,)";
    assert_eq!(
        parse_engine_name(output).as_deref(),
        Some("typing-booster:sv_SE.UTF-8")
    );
}

#[test]
fn ibus_returns_none_for_unexpected_gdbus_output() {
    assert_eq!(parse_object_path("()"), None);
    assert_eq!(parse_engine_name("()"), None);
    assert_eq!(parse_object_path(""), None);
    assert_eq!(parse_engine_name(""), None);
}

#[test]
fn input_parses_object_path_from_gdbus_output() {
    let output = "(objectpath '/org/freedesktop/IBus/InputContext_2',)";
    assert_eq!(
        parse_object_path(output).as_deref(),
        Some("/org/freedesktop/IBus/InputContext_2")
    );
}

#[test]
fn input_parses_engine_name_from_gdbus_output() {
    let output = "(<'IBusEngineDesc', {}, 'xkb:us::eng', 'English (US)', '', 'en', '', '', '', uint32 0, '', '', '', '', '', '', '', ''>,)";
    assert_eq!(parse_engine_name(output).as_deref(), Some("xkb:us::eng"));
}

#[test]
fn input_parses_outputs_with_extra_whitespace() {
    let object_output =
        "  random prefix (objectpath '/org/freedesktop/IBus/InputContext_42',)  ";
    let engine_output =
        "  (< 'IBusEngineDesc', {},   'xkb:gb::eng', 'English (UK)', '', 'en_GB', '', '', '', uint32 0, '', '', '', '', '', '', '', ''>,)  ";
    assert_eq!(
        parse_object_path(object_output).as_deref(),
        Some("/org/freedesktop/IBus/InputContext_42")
    );
    assert_eq!(
        parse_engine_name(engine_output).as_deref(),
        Some("xkb:gb::eng")
    );
}

#[test]
fn input_parses_high_numbered_input_context_paths() {
    let output = "(objectpath '/org/freedesktop/IBus/InputContext_184467',)";
    assert_eq!(
        parse_object_path(output).as_deref(),
        Some("/org/freedesktop/IBus/InputContext_184467")
    );
}

#[test]
fn input_parses_engine_names_with_unusual_locale_identifiers() {
    let output = "(<'IBusEngineDesc', {}, 'typing-booster:sv_SE.UTF-8', 'Swedish', '', 'sv_SE.UTF-8', '', '', '', uint32 0, '', '', '', '', '', '', '', ''>,)";
    assert_eq!(
        parse_engine_name(output).as_deref(),
        Some("typing-booster:sv_SE.UTF-8")
    );
}

#[test]
fn input_returns_none_for_unexpected_gdbus_output() {
    assert_eq!(parse_object_path("()"), None);
    assert_eq!(parse_engine_name("()"), None);
    assert_eq!(parse_object_path(""), None);
    assert_eq!(parse_engine_name(""), None);
}

#[test]
fn object_path_needs_a_closing_quote() {
    assert_eq!(parse_object_path("(objectpath '/org/freedesktop/IBus/InputContext_2"), None);
}

#[test]
fn engine_name_needs_both_quotes() {
    assert_eq!(parse_engine_name("(<'IBusEngineDesc', {}, xkb>)"), None);
    assert_eq!(parse_engine_name("(<'IBusEngineDesc', {}, 'xkb>)"), None);
}
