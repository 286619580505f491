use ektox::hotkey::Hotkey;
use ektox::hotkey::MOD_ALT;
use ektox::hotkey::MOD_CONTROL;
use ektox::hotkey::MOD_SHIFT;
use ektox::hotkey::MOD_WIN;
use ektox::key::Key;
use ektox::parse_hotkey_error::ParseHotkeyError;
use ektox::parse_hotkey_error::ParseHotkeyErrorKind;
use ektox::special_key::SpecialKey;

#[test]
fn hotkey_it_works() {
    let new = Hotkey::new(false, false, false, false, None);
    let default = Hotkey::default();
    assert!(new == default);

    let new = Hotkey::new(true, false, false, false, Some(Key::AlphaNumeric('a')));
    let parse = Hotkey::parse("ctrl + a").unwrap();
    assert!(new == parse);

    let new = Hotkey::new(
        true,
        false,
        true,
        false,
        Some(Key::special(SpecialKey::Delete)),
    );
    let parse = Hotkey::parse("ctrl + alt + delete").unwrap();
    assert!(new == parse);
}

#[test]
fn parse() {
    let source = "ctrl + shift + f1 + f2";
    let actual = Hotkey::parse(source);
    let expected = ParseHotkeyError::new(source, ParseHotkeyErrorKind::TooManyKey);
    assert_eq!(actual, Err(expected));

    let source = "ctrl + a + f2";
    let actual = Hotkey::parse(source);
    let expected = ParseHotkeyError::new(source, ParseHotkeyErrorKind::TooManyKey);
    assert_eq!(actual, Err(expected));

    let source = "a + a";
    let actual = Hotkey::parse(source);
    let expected = ParseHotkeyError::new(source, ParseHotkeyErrorKind::TooManyKey);
    assert_eq!(actual, Err(expected));

    let source = "ctrl + shift";
    let actual = Hotkey::parse(source);
    let expected = ParseHotkeyError::new(source, ParseHotkeyErrorKind::MissingKey);
    assert_eq!(actual, Err(expected));

    let source = "ctrl + ";
    let actual = Hotkey::parse(source);
    let expected = ParseHotkeyError::new(source, ParseHotkeyErrorKind::UnexpectedKey);
    assert_eq!(actual, Err(expected));

    let source = "";
    let actual = Hotkey::parse(source);
    let expected = ParseHotkeyError::new(source, ParseHotkeyErrorKind::KeyNotEnough);
    assert_eq!(actual, Err(expected));
}

#[test]
fn get_modifiers() {
    let hotkey = Hotkey::parse("ctrl + a").unwrap();
    assert_eq!(hotkey.get_modifiers() & MOD_CONTROL, MOD_CONTROL);

    let hotkey = Hotkey::parse("ctrl + alt + a").unwrap();
    assert_eq!(hotkey.get_modifiers() & MOD_CONTROL, MOD_CONTROL);
    assert_eq!(hotkey.get_modifiers() & MOD_ALT, MOD_ALT);
}

#[test]
fn get_key() {
    let hotkey = Hotkey::parse("ctrl + a").unwrap();
    assert_eq!(hotkey.get_key(), 'a' as u32);

    let hotkey = Hotkey::parse("ctrl + 1").unwrap();
    assert_eq!(hotkey.get_key(), '1' as u32);

    // 46 is the OS virtual-key code of the Delete key.
    let hotkey = Hotkey::parse("ctrl + alt + delete").unwrap();
    assert_eq!(hotkey.get_key(), 46);
}

#[test]
fn to_string() {
    let hotkey = Hotkey::parse("ctrl + alt + delete").unwrap();
    assert_eq!(hotkey.render(), "Ctrl+Alt+Delete");
}

#[test]
fn parse_single_character_fails() {
    let actual = Hotkey::parse("a");
    let expected = ParseHotkeyError::new("a", ParseHotkeyErrorKind::KeyNotEnough);
    assert_eq!(actual, Err(expected));
}

#[test]
fn parse_unknown_name_fails() {
    let actual = Hotkey::parse("ctrl+foo");
    let expected = ParseHotkeyError::new("ctrl+foo", ParseHotkeyErrorKind::UnexpectedKey);
    assert_eq!(actual, Err(expected));
}

#[test]
fn parse_without_spaces() {
    let hotkey = Hotkey::parse("ctrl+shift+f1+f2");
    let expected = ParseHotkeyError::new("ctrl+shift+f1+f2", ParseHotkeyErrorKind::TooManyKey);
    assert_eq!(hotkey, Err(expected));

    let hotkey = Hotkey::parse("ctrl+a").unwrap();
    assert!(hotkey.ctrl);
    assert!(!hotkey.shift && !hotkey.alt && !hotkey.win);
    assert_eq!(hotkey.key, Some(Key::AlphaNumeric('a')));
    assert_eq!(hotkey.render(), "Ctrl+A");
}

#[test]
fn parse_duplicate_modifiers() {
    let once = Hotkey::parse("ctrl+a").unwrap();
    let twice = Hotkey::parse("ctrl+ctrl+a").unwrap();
    assert_eq!(once, twice);
}

#[test]
fn parse_modifier_names_any_case() {
    let upper = Hotkey::parse("CTRL + SHIFT + ALT + WIN + x").unwrap();
    let lower = Hotkey::parse("ctrl + shift + alt + win + X").unwrap();
    assert_eq!(upper, lower);
    assert_eq!(upper.get_modifiers(), MOD_ALT + MOD_CONTROL + MOD_SHIFT + MOD_WIN);
}

#[test]
fn parse_render_round_trip() {
    let sources = vec![
        "ctrl + a",
        "ctrl+shift+delete",
        "WIN + f12",
        "alt + 9",
        "ctrl + alt + win + shift + pageup",
    ];
    for source in sources {
        let parsed = Hotkey::parse(source).unwrap();
        let rendered = parsed.render();
        let reparsed = Hotkey::parse(rendered.as_str()).unwrap();
        assert_eq!(parsed, reparsed);
        assert_eq!(reparsed.render(), rendered);
    }
}

#[test]
fn parse_trims_whitespace() {
    let padded = Hotkey::parse("  ctrl\t +  a  ").unwrap();
    let plain = Hotkey::parse("ctrl+a").unwrap();
    assert_eq!(padded, plain);
}

#[test]
fn render_special_keys() {
    assert_eq!(Hotkey::parse("shift+enter").unwrap().render(), "Shift+Enter");
    assert_eq!(
        Hotkey::parse("win + scrolllock").unwrap().render(),
        "Win+ScrollLock"
    );
}

#[test]
fn error_carries_source_and_kind() {
    let err = Hotkey::parse("ctrl + shift").unwrap_err();
    assert_eq!(err.source, "ctrl + shift");
    assert_eq!(err.kind, ParseHotkeyErrorKind::MissingKey);
    assert_eq!(
        err.message(),
        "ParseHotkeyError: 'MissingKey' from source 'ctrl + shift'"
    );

    let default = ParseHotkeyError::default();
    assert_eq!(default.kind, ParseHotkeyErrorKind::Unknow);
    assert_eq!(default.source, "unexpected error");
}

#[test]
fn render_empty_hotkey_placeholder() {
    assert_eq!(Hotkey::default().render(), "?");
}

#[test]
fn parse_punctuation_key_fails() {
    let actual = Hotkey::parse("ctrl+%");
    let expected = ParseHotkeyError::new("ctrl+%", ParseHotkeyErrorKind::UnexpectedKey);
    assert_eq!(actual, Err(expected));

    let actual = Hotkey::parse("alt + $");
    let expected = ParseHotkeyError::new("alt + $", ParseHotkeyErrorKind::UnexpectedKey);
    assert_eq!(actual, Err(expected));
}

#[test]
fn parse_empty_part_fails() {
    let actual = Hotkey::parse("ctrl++a");
    let expected = ParseHotkeyError::new("ctrl++a", ParseHotkeyErrorKind::UnexpectedKey);
    assert_eq!(actual, Err(expected));
}
