//! The hotkey value and its grammar.
//!
//! A chord string is split on `+`, each part trimmed of surrounding
//! whitespace. Every part is either a modifier name (matched
//! case-insensitively, repeats are idempotent), a single ASCII letter or
//! digit, or a special-key name; at most one non-modifier part is allowed,
//! and a valid chord has at least two parts and exactly one key.
//! The whole grammar is captured by [`spec_parse`], which the executable
//! parser is proved to implement exactly.

use vstd::prelude::*;

use crate::key::key_code;
use crate::key::key_eq;
use crate::key::Key;
use crate::parse_hotkey_error::ParseHotkeyError;
use crate::parse_hotkey_error::ParseHotkeyErrorKind;
use crate::special_key::special_of_upper;
use crate::text::chars_of;
use crate::text::is_alnum_char;
use crate::text::is_alnum_char_exec;
use crate::text::is_space;
use crate::text::split_plus;
use crate::text::split_plus_exec;
use crate::text::trim;
use crate::text::trim_exec;
use crate::text::upper_char;
use crate::text::upper_char_exec;
use crate::text::upper_seq;
use crate::text::upper_token_is;
use crate::text::views_of;
use crate::special_key::SpecialKey;

verus! {

/// Modifier bitmask values, as the OS hotkey-registration call defines them.
pub const MOD_ALT: u32 = 1;

pub const MOD_CONTROL: u32 = 2;

pub const MOD_SHIFT: u32 = 4;

pub const MOD_WIN: u32 = 8;

#[derive(Clone, Copy, Debug, Eq)]
#[verifier::ext_equal]
pub struct Hotkey {
    pub ctrl: bool,
    pub shift: bool,
    pub alt: bool,
    pub win: bool,
    pub key: Option<Key>,
}

/// The builder seed: no modifiers, no key. Not a valid parse result.
pub open spec fn empty_hotkey() -> Hotkey {
    Hotkey { ctrl: false, shift: false, alt: false, win: false, key: None }
}

/// Equality of hotkeys: the four flags structurally, the keys by key
/// equality (character keys up to ASCII case).
pub open spec fn hotkey_eq(a: Hotkey, b: Hotkey) -> bool {
    &&& a.ctrl == b.ctrl
    &&& a.shift == b.shift
    &&& a.alt == b.alt
    &&& a.win == b.win
    &&& match (a.key, b.key) {
        (Some(x), Some(y)) => key_eq(x, y),
        (None, None) => true,
        _ => false,
    }
}

impl PartialEq for Hotkey {
    fn eq(&self, other: &Self) -> bool {
        self.ctrl == other.ctrl && self.shift == other.shift && self.alt == other.alt && self.win
            == other.win && match (&self.key, &other.key) {
            (Some(x), Some(y)) => x == y,
            (None, None) => true,
            _ => false,
        }
    }
}

impl vstd::std_specs::cmp::PartialEqSpecImpl for Hotkey {
    open spec fn obeys_eq_spec() -> bool {
        true
    }

    open spec fn eq_spec(&self, other: &Hotkey) -> bool {
        hotkey_eq(*self, *other)
    }
}

/// A modifier-name part (after case folding).
pub open spec fn is_ctrl_token(t: Seq<char>) -> bool {
    upper_seq(t) == "CTRL"@
}

pub open spec fn is_shift_token(t: Seq<char>) -> bool {
    upper_seq(t) == "SHIFT"@
}

pub open spec fn is_alt_token(t: Seq<char>) -> bool {
    upper_seq(t) == "ALT"@
}

pub open spec fn is_win_token(t: Seq<char>) -> bool {
    upper_seq(t) == "WIN"@
}

pub open spec fn is_modifier_token(t: Seq<char>) -> bool {
    is_ctrl_token(t) || is_shift_token(t) || is_alt_token(t) || is_win_token(t)
}

/// A printable-key part: a single ASCII letter or digit.
pub open spec fn is_alpha_token(t: Seq<char>) -> bool {
    t.len() == 1 && is_alnum_char(t[0])
}

/// Sets the flag a modifier part names; leaves any other part alone.
pub open spec fn apply_modifier(h: Hotkey, t: Seq<char>) -> Hotkey {
    if is_ctrl_token(t) {
        Hotkey { ctrl: true, ..h }
    } else if is_shift_token(t) {
        Hotkey { shift: true, ..h }
    } else if is_alt_token(t) {
        Hotkey { alt: true, ..h }
    } else if is_win_token(t) {
        Hotkey { win: true, ..h }
    } else {
        h
    }
}

/// The hotkey with its key set to the given single-character part's
/// character.
pub open spec fn with_alpha_key(h: Hotkey, t: Seq<char>) -> Hotkey {
    Hotkey { key: Some(Key::AlphaNumeric(t[0])), ..h }
}

/// The hotkey with its key set to the special key the part names.
pub open spec fn with_special_key(h: Hotkey, t: Seq<char>) -> Hotkey {
    Hotkey { key: Some(Key::Special(special_of_upper(upper_seq(t))->Some_0)), ..h }
}

/// One left-to-right pass over the trimmed parts, from an already
/// accumulated hotkey: modifiers set their flag; a non-modifier part when a
/// key is already set fails; otherwise a single ASCII letter or digit or a
/// special-key name becomes the key; anything else fails; and a pass that
/// ends without a key fails.
pub open spec fn parse_tokens(parts: Seq<Seq<char>>, h: Hotkey) -> Result<
    Hotkey,
    ParseHotkeyErrorKind,
>
    decreases parts.len(),
{
    if parts.len() == 0 {
        if h.key is None {
            Err(ParseHotkeyErrorKind::MissingKey)
        } else {
            Ok(h)
        }
    } else {
        let t = parts[0];
        if is_modifier_token(t) {
            parse_tokens(parts.skip(1), apply_modifier(h, t))
        } else if h.key is Some {
            Err(ParseHotkeyErrorKind::TooManyKey)
        } else if is_alpha_token(t) {
            parse_tokens(parts.skip(1), with_alpha_key(h, t))
        } else if special_of_upper(upper_seq(t)) is Some {
            parse_tokens(parts.skip(1), with_special_key(h, t))
        } else {
            Err(ParseHotkeyErrorKind::UnexpectedKey)
        }
    }
}

/// Whether some part case-folds to the given (already folded) name.
pub open spec fn has_upper_token(parts: Seq<Seq<char>>, name: Seq<char>) -> bool {
    exists|j: int| 0 <= j < parts.len() && upper_seq(#[trigger] parts[j]) == name
}

/// The trimmed `+`-delimited parts of a chord string.
pub open spec fn tokens_of(s: Seq<char>) -> Seq<Seq<char>> {
    split_plus(s).map_values(|t: Seq<char>| trim(t))
}

/// What parsing a chord string yields: the outcome of the single pass over
/// its parts, after rejecting strings with fewer than two parts.
pub open spec fn spec_parse(s: Seq<char>) -> Result<Hotkey, ParseHotkeyErrorKind> {
    let parts = tokens_of(s);
    if parts.len() < 2 {
        Err(ParseHotkeyErrorKind::KeyNotEnough)
    } else {
        parse_tokens(parts, empty_hotkey())
    }
}

/// Well-formedness of a key as the parser produces it: a printable key
/// holds an ASCII letter or digit.
pub open spec fn key_wf(k: Key) -> bool {
    match k {
        Key::AlphaNumeric(c) => is_alnum_char(c),
        Key::Special(_) => true,
    }
}

/// A valid hotkey, as accepted by the parser: at least one modifier set and
/// exactly one well-formed key.
pub open spec fn valid_hotkey(h: Hotkey) -> bool {
    &&& h.ctrl || h.shift || h.alt || h.win
    &&& match h.key {
        Some(k) => key_wf(k),
        None => false,
    }
}

/// A part as tokenization produces it: free of the delimiter, with no
/// whitespace at either end.
pub open spec fn token_clean(t: Seq<char>) -> bool {
    &&& forall|i: int| 0 <= i < t.len() ==> t[i] != '+'
    &&& t.len() > 0 ==> !is_space(t[0]) && !is_space(t[t.len() - 1])
}

/// The modifier bitmask a hotkey registers under.
pub open spec fn modifiers_mask(h: Hotkey) -> u32 {
    (((if h.alt {
        MOD_ALT
    } else {
        0
    }) + (if h.shift {
        MOD_SHIFT
    } else {
        0
    }) + (if h.ctrl {
        MOD_CONTROL
    } else {
        0
    }) + (if h.win {
        MOD_WIN
    } else {
        0
    })) as u32)
}

/// The key code a hotkey registers under; zero when no key is set.
pub open spec fn key_code_of(h: Hotkey) -> u32 {
    match h.key {
        Some(k) => key_code(k),
        None => 0,
    }
}

/// The canonical rendering of a key: a printable key prints as its uppercase
/// character, a special key as its display name, and an absent key as `?`.
pub open spec fn key_render(k: Option<Key>) -> Seq<char> {
    match k {
        Some(Key::AlphaNumeric(c)) => seq![upper_char(c)],
        Some(Key::Special(s)) => s.name_seq(),
        None => "?"@,
    }
}

/// The canonical rendering of a hotkey: present modifier names in the fixed
/// order Ctrl, Shift, Alt, Win, each followed by `+`, then the key.
pub open spec fn spec_render(h: Hotkey) -> Seq<char> {
    (if h.ctrl {
        "Ctrl+"@
    } else {
        Seq::<char>::empty()
    }) + (if h.shift {
        "Shift+"@
    } else {
        Seq::<char>::empty()
    }) + (if h.alt {
        "Alt+"@
    } else {
        Seq::<char>::empty()
    }) + (if h.win {
        "Win+"@
    } else {
        Seq::<char>::empty()
    }) + key_render(h.key)
}

impl Hotkey {
    pub fn new(ctrl: bool, shift: bool, alt: bool, win: bool, key: Option<Key>) -> (r: Self)
        ensures
            r == (Hotkey { ctrl, shift, alt, win, key }),
    {
        Hotkey { ctrl, shift, alt, win, key }
    }

    pub fn default() -> (r: Self)
        ensures
            r == empty_hotkey(),
    {
        Hotkey { ctrl: false, alt: false, shift: false, win: false, key: None }
    }

    /// Parses a chord string. The result is exactly what [`spec_parse`] says:
    /// `Ok` of the accumulated hotkey on success, and otherwise the error of
    /// the matching kind, carrying the whole source string.
    pub fn parse(source: &str) -> (r: Result<Self, ParseHotkeyError>)
        ensures
            match spec_parse(source@) {
                Ok(h) => r is Ok && r->Ok_0 == h,
                Err(k) => r is Err && r->Err_0.kind == k && r->Err_0.source@ == source@,
            },
    {
        let chars = chars_of(source);
        let raw = split_plus_exec(&chars);
        let mut toks: Vec<Vec<char>> = Vec::new();
        let mut idx: usize = 0;
        while idx < raw.len()
            invariant
                idx <= raw@.len(),
                toks@.len() == idx,
                views_of(raw@) == split_plus(source@),
                views_of(toks@) =~= tokens_of(source@).take(idx as int),
            decreases raw@.len() - idx,
        {
            let part: &Vec<char> = &raw[idx];
            proof {
                assert(part@ == views_of(raw@)[idx as int]);
            }
            let t = trim_exec(part);
            let ghost old_toks = toks@;
            toks.push(t);
            proof {
                assert(tokens_of(source@)[idx as int] == trim(split_plus(source@)[idx as int]));
                assert forall|k: int| 0 <= k < toks@.len() implies views_of(toks@)[k]
                    == tokens_of(source@).take(idx + 1)[k] by {
                    assert(views_of(toks@)[k] == toks@[k]@);
                    if k < idx {
                        assert(toks@[k] == old_toks[k]);
                        assert(views_of(old_toks)[k] == old_toks[k]@);
                    } else {
                        assert(toks@[k]@ == t@);
                    }
                }
                assert(views_of(toks@) =~= tokens_of(source@).take(idx + 1));
            }
            idx += 1;
        }
        proof {
            assert(views_of(toks@) =~= tokens_of(source@));
        }
        let ghost tks = tokens_of(source@);
        if toks.len() < 2 {
            return Err(ParseHotkeyError::new(source, ParseHotkeyErrorKind::KeyNotEnough));
        }
        let mut hotkey = Hotkey::default();
        let mut i: usize = 0;
        proof {
            assert(tks.skip(0) =~= tks);
        }
        while i < toks.len()
            invariant
                i <= toks@.len(),
                views_of(toks@) == tks,
                tks.len() >= 2,
                spec_parse(source@) == parse_tokens(tks.skip(i as int), hotkey),
            decreases toks@.len() - i,
        {
            let t = &toks[i];
            proof {
                assert(tks.skip(i as int)[0] == t@);
                assert(tks.skip(i as int).skip(1) =~= tks.skip(i + 1));
            }
            if hotkey.parse_modifier(t) {
            } else if hotkey.key.is_some() {
                return Err(ParseHotkeyError::new(source, ParseHotkeyErrorKind::TooManyKey));
            } else if hotkey.parse_alpha_numeric(t) {
            } else if hotkey.parse_special(t) {
            } else {
                return Err(ParseHotkeyError::new(source, ParseHotkeyErrorKind::UnexpectedKey));
            }
            i += 1;
        }
        proof {
            assert(tks.skip(i as int) =~= Seq::<Seq<char>>::empty());
        }
        if hotkey.key.is_none() {
            Err(ParseHotkeyError::new(source, ParseHotkeyErrorKind::MissingKey))
        } else {
            Ok(hotkey)
        }
    }

    /// Sets the matching modifier flag and reports whether the part was a
    /// modifier name.
    fn parse_modifier(&mut self, part: &Vec<char>) -> (r: bool)
        ensures
            r == is_modifier_token(part@),
            *final(self) == apply_modifier(*old(self), part@),
    {
        if upper_token_is(part, "CTRL") {
            self.ctrl = true;
            true
        } else if upper_token_is(part, "SHIFT") {
            self.shift = true;
            true
        } else if upper_token_is(part, "ALT") {
            self.alt = true;
            true
        } else if upper_token_is(part, "WIN") {
            self.win = true;
            true
        } else {
            false
        }
    }

    /// Takes a single-letter-or-digit part as the key and reports whether
    /// it was one.
    fn parse_alpha_numeric(&mut self, part: &Vec<char>) -> (r: bool)
        ensures
            r == is_alpha_token(part@),
            r ==> *final(self) == (Hotkey { key: Some(Key::AlphaNumeric(part@[0])), ..*old(self) }),
            !r ==> *final(self) == *old(self),
    {
        if part.len() == 1 && is_alnum_char_exec(part[0]) {
            self.key = Some(Key::AlphaNumeric(part[0]));
            true
        } else {
            false
        }
    }

    /// Takes a special-key-name part as the key and reports whether it was
    /// one.
    fn parse_special(&mut self, part: &Vec<char>) -> (r: bool)
        ensures
            r == (special_of_upper(upper_seq(part@)) is Some),
            r ==> *final(self) == (Hotkey {
                key: Some(Key::Special(special_of_upper(upper_seq(part@))->Some_0)),
                ..*old(self)
            }),
            !r ==> *final(self) == *old(self),
    {
        match SpecialKey::from_token(part) {
            Some(special_key) => {
                self.key = Some(Key::special(special_key));
                true
            },
            None => false,
        }
    }

    /// The modifier bitmask for OS registration.
    pub fn get_modifiers(&self) -> (r: u32)
        ensures
            r == modifiers_mask(*self),
    {
        let mut modifiers: u32 = 0;
        if self.alt {
            modifiers += MOD_ALT;
        }
        if self.shift {
            modifiers += MOD_SHIFT;
        }
        if self.ctrl {
            modifiers += MOD_CONTROL;
        }
        if self.win {
            modifiers += MOD_WIN;
        }
        modifiers
    }

    /// The key code for OS registration; zero when no key is set.
    pub fn get_key(&self) -> (r: u32)
        ensures
            r == key_code_of(*self),
    {
        match &self.key {
            Some(key) => key.as_u32(),
            None => 0,
        }
    }

    /// The canonical string form, exactly [`spec_render`].
    pub fn render(&self) -> (r: String)
        ensures
            r@ == spec_render(*self),
    {
        let mut out = String::new();
        if self.ctrl {
            out.append("Ctrl+");
        }
        if self.shift {
            out.append("Shift+");
        }
        if self.alt {
            out.append("Alt+");
        }
        if self.win {
            out.append("Win+");
        }
        match &self.key {
            Some(Key::AlphaNumeric(c)) => {
                crate::text::push_char(&mut out, upper_char_exec(*c));
            },
            Some(Key::Special(k)) => {
                out.append(k.name());
            },
            None => {
                out.append("?");
            },
        }
        proof {
            assert(out@ =~= spec_render(*self));
        }
        out
    }
}

} // verus!
