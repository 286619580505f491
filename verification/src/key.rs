//! A key is either a single ASCII letter or digit (compared
//! case-insensitively) or one of the named special keys.

use vstd::prelude::*;

use crate::special_key::SpecialKey;
use crate::text::upper_char;
use crate::text::upper_char_exec;

verus! {

#[derive(Clone, Copy, Debug, Eq)]
pub enum Key {
    AlphaNumeric(char),
    Special(SpecialKey),
}

/// Equality of keys: character keys are identified up to ASCII case, special
/// keys structurally.
pub open spec fn key_eq(a: Key, b: Key) -> bool {
    match (a, b) {
        (Key::AlphaNumeric(l), Key::AlphaNumeric(r)) => upper_char(l) == upper_char(r),
        (Key::Special(l), Key::Special(r)) => l == r,
        _ => false,
    }
}

impl PartialEq for Key {
    fn eq(&self, other: &Self) -> bool {
        match (self, other) {
            (Key::AlphaNumeric(l), Key::AlphaNumeric(r)) => {
                upper_char_exec(*l) == upper_char_exec(*r)
            },
            (Key::Special(l), Key::Special(r)) => l == r,
            _ => false,
        }
    }
}

impl vstd::std_specs::cmp::PartialEqSpecImpl for Key {
    open spec fn obeys_eq_spec() -> bool {
        true
    }

    open spec fn eq_spec(&self, other: &Key) -> bool {
        key_eq(*self, *other)
    }
}

/// The OS key code a key registers under: the character's code point for a
/// printable key, the virtual-key code for a special key.
pub open spec fn key_code(k: Key) -> u32 {
    match k {
        Key::AlphaNumeric(c) => c as u32,
        Key::Special(s) => s.code(),
    }
}

impl Key {
    pub fn alpha_numeric(ch: char) -> (r: Self)
        ensures
            r == Key::AlphaNumeric(ch),
    {
        Key::AlphaNumeric(ch)
    }

    pub fn special(special_key: SpecialKey) -> (r: Self)
        ensures
            r == Key::Special(special_key),
    {
        Key::Special(special_key)
    }

    pub fn as_u32(&self) -> (r: u32)
        ensures
            r == key_code(*self),
    {
        match self {
            Key::AlphaNumeric(c) => *c as u32,
            Key::Special(k) => k.as_u32(),
        }
    }
}

} // verus!
