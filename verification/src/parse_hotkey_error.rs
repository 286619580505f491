//! The exhaustive taxonomy of chord-parse failures, each carrying the
//! offending source text for diagnostics.

use vstd::prelude::*;

verus! {

#[derive(Clone, Copy, Debug, PartialEq, Eq, Structural)]
pub enum ParseHotkeyErrorKind {
    /// Fewer than two delimited parts: a chord needs at least one modifier
    /// and one key.
    KeyNotEnough,
    /// A second non-modifier part was found after a key was already set.
    TooManyKey,
    /// All parts were modifiers; no key was given.
    MissingKey,
    /// A part is neither a modifier, a printable character, nor a known
    /// special-key name.
    UnexpectedKey,
    /// A non-user-facing default; never returned by the parser.
    Unknow,
}

#[derive(Debug, Eq)]
pub struct ParseHotkeyError {
    pub source: String,
    pub kind: ParseHotkeyErrorKind,
}

impl PartialEq for ParseHotkeyError {
    fn eq(&self, other: &Self) -> bool {
        self.source == other.source && self.kind == other.kind
    }
}

impl vstd::std_specs::cmp::PartialEqSpecImpl for ParseHotkeyError {
    open spec fn obeys_eq_spec() -> bool {
        true
    }

    open spec fn eq_spec(&self, other: &ParseHotkeyError) -> bool {
        self.source@ == other.source@ && self.kind == other.kind
    }
}

/// The display name of an error kind.
pub open spec fn kind_name(kind: ParseHotkeyErrorKind) -> Seq<char> {
    match kind {
        ParseHotkeyErrorKind::KeyNotEnough => "KeyNotEnough"@,
        ParseHotkeyErrorKind::TooManyKey => "TooManyKey"@,
        ParseHotkeyErrorKind::MissingKey => "MissingKey"@,
        ParseHotkeyErrorKind::UnexpectedKey => "UnexpectedKey"@,
        ParseHotkeyErrorKind::Unknow => "Unknow"@,
    }
}

impl ParseHotkeyError {
    pub fn default() -> (r: Self)
        ensures
            r.source@ == "unexpected error"@,
            r.kind == ParseHotkeyErrorKind::Unknow,
    {
        ParseHotkeyError {
            source: "unexpected error".to_owned(),
            kind: ParseHotkeyErrorKind::Unknow,
        }
    }

    pub fn new(source: &str, kind: ParseHotkeyErrorKind) -> (r: Self)
        ensures
            r.source@ == source@,
            r.kind == kind,
    {
        ParseHotkeyError { source: source.to_owned(), kind }
    }

    /// A readable description of the failure, in place of a display
    /// implementation.
    pub fn message(&self) -> (r: String)
        ensures
            r@ == "ParseHotkeyError: '"@ + kind_name(self.kind) + "' from source '"@ + self.source@
                + "'"@,
    {
        let name: &str = match self.kind {
            ParseHotkeyErrorKind::KeyNotEnough => "KeyNotEnough",
            ParseHotkeyErrorKind::TooManyKey => "TooManyKey",
            ParseHotkeyErrorKind::MissingKey => "MissingKey",
            ParseHotkeyErrorKind::UnexpectedKey => "UnexpectedKey",
            ParseHotkeyErrorKind::Unknow => "Unknow",
        };
        let mut r = String::new();
        r.append("ParseHotkeyError: '");
        r.append(name);
        r.append("' from source '");
        r.append(self.source.as_str());
        r.append("'");
        proof {
            assert(r@ =~= "ParseHotkeyError: '"@ + kind_name(self.kind) + "' from source '"@
                + self.source@ + "'"@);
        }
        r
    }
}

} // verus!
