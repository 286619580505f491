use ektox::key::Key;
use ektox::special_key::SpecialKey;

#[test]
fn key_it_works() {
    let a = Key::AlphaNumeric('a');
    let b = Key::Special(SpecialKey::BackSpace);
    let c = Key::AlphaNumeric('a');
    assert!(a != b);
    assert!(c == a);
    assert!(a.as_u32() == 97);
    assert!(b.as_u32() == 8)
}

#[test]
fn special_key_it_works() {
    let a = SpecialKey::from_str("F1").unwrap();
    let b = SpecialKey::F1;
    assert!(a == b);
}

#[test]
fn key_compares_characters_case_insensitively() {
    assert_eq!(Key::AlphaNumeric('a'), Key::AlphaNumeric('A'));
    assert_ne!(Key::AlphaNumeric('a'), Key::AlphaNumeric('b'));
    assert_ne!(Key::AlphaNumeric('a'), Key::Special(SpecialKey::Delete));
    assert_eq!(Key::alpha_numeric('q'), Key::AlphaNumeric('Q'));
}

#[test]
fn special_key_names_parse_case_insensitively() {
    assert_eq!(SpecialKey::from_str("pAgEuP"), Some(SpecialKey::PageUp));
    assert_eq!(SpecialKey::from_str("BACKSPACE"), Some(SpecialKey::BackSpace));
    assert_eq!(SpecialKey::from_str("scrolllock"), Some(SpecialKey::ScrollLock));
    assert_eq!(SpecialKey::from_str("nope"), None);
    assert_eq!(SpecialKey::from_str(""), None);
}

#[test]
fn special_key_codes() {
    assert_eq!(SpecialKey::BackSpace.as_u32(), 8);
    assert_eq!(SpecialKey::Enter.as_u32(), 13);
    assert_eq!(SpecialKey::Escape.as_u32(), 27);
    assert_eq!(SpecialKey::Delete.as_u32(), 46);
    assert_eq!(SpecialKey::F1.as_u32(), 112);
    assert_eq!(SpecialKey::F12.as_u32(), 123);
    assert_eq!(SpecialKey::NumLock.as_u32(), 144);
    assert_eq!(SpecialKey::ScrollLock.as_u32(), 145);
}

#[test]
fn special_key_names_render() {
    assert_eq!(SpecialKey::PageDown.name(), "PageDown");
    assert_eq!(SpecialKey::PrintScreen.name(), "PrintScreen");
    assert_eq!(SpecialKey::F7.name(), "F7");
}
