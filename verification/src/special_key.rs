//! The closed vocabulary of named (non-printable) keys: each has a stable
//! display name, matched case-insensitively when parsing, and a stable OS
//! virtual-key code used for hotkey registration.

use vstd::prelude::*;

use crate::text::chars_of;
use crate::text::is_space;
use crate::text::upper_seq;
use crate::text::upper_token_is;

verus! {

#[derive(Clone, Copy, Debug, PartialEq, Eq, Structural)]
pub enum SpecialKey {
    BackSpace,
    Tab,
    Clear,
    Enter,
    Pause,
    Caplock,
    Escape,
    SpaceBar,
    PageUp,
    PageDown,
    End,
    Home,
    LeftArrow,
    UpArrow,
    RightArrow,
    DownArrow,
    Select,
    Print,
    PrintScreen,
    Insert,
    Delete,
    F1,
    F2,
    F3,
    F4,
    F5,
    F6,
    F7,
    F8,
    F9,
    F10,
    F11,
    F12,
    NumLock,
    ScrollLock,
}

impl SpecialKey {
    /// The OS virtual-key code of this key.
    pub open spec fn code(self) -> u32 {
        match self {
            SpecialKey::BackSpace => 8,
            SpecialKey::Tab => 9,
            SpecialKey::Clear => 12,
            SpecialKey::Enter => 13,
            SpecialKey::Pause => 19,
            SpecialKey::Caplock => 20,
            SpecialKey::Escape => 27,
            SpecialKey::SpaceBar => 32,
            SpecialKey::PageUp => 33,
            SpecialKey::PageDown => 34,
            SpecialKey::End => 35,
            SpecialKey::Home => 36,
            SpecialKey::LeftArrow => 37,
            SpecialKey::UpArrow => 38,
            SpecialKey::RightArrow => 39,
            SpecialKey::DownArrow => 40,
            SpecialKey::Select => 41,
            SpecialKey::Print => 42,
            SpecialKey::PrintScreen => 44,
            SpecialKey::Insert => 45,
            SpecialKey::Delete => 46,
            SpecialKey::F1 => 112,
            SpecialKey::F2 => 113,
            SpecialKey::F3 => 114,
            SpecialKey::F4 => 115,
            SpecialKey::F5 => 116,
            SpecialKey::F6 => 117,
            SpecialKey::F7 => 118,
            SpecialKey::F8 => 119,
            SpecialKey::F9 => 120,
            SpecialKey::F10 => 121,
            SpecialKey::F11 => 122,
            SpecialKey::F12 => 123,
            SpecialKey::NumLock => 144,
            SpecialKey::ScrollLock => 145,
        }
    }

    /// The display name of this key, as rendered and as matched (up to case)
    /// when parsing.
    pub open spec fn name_seq(self) -> Seq<char> {
        match self {
            SpecialKey::BackSpace => "BackSpace"@,
            SpecialKey::Tab => "Tab"@,
            SpecialKey::Clear => "Clear"@,
            SpecialKey::Enter => "Enter"@,
            SpecialKey::Pause => "Pause"@,
            SpecialKey::Caplock => "Caplock"@,
            SpecialKey::Escape => "Escape"@,
            SpecialKey::SpaceBar => "SpaceBar"@,
            SpecialKey::PageUp => "PageUp"@,
            SpecialKey::PageDown => "PageDown"@,
            SpecialKey::End => "End"@,
            SpecialKey::Home => "Home"@,
            SpecialKey::LeftArrow => "LeftArrow"@,
            SpecialKey::UpArrow => "UpArrow"@,
            SpecialKey::RightArrow => "RightArrow"@,
            SpecialKey::DownArrow => "DownArrow"@,
            SpecialKey::Select => "Select"@,
            SpecialKey::Print => "Print"@,
            SpecialKey::PrintScreen => "PrintScreen"@,
            SpecialKey::Insert => "Insert"@,
            SpecialKey::Delete => "Delete"@,
            SpecialKey::F1 => "F1"@,
            SpecialKey::F2 => "F2"@,
            SpecialKey::F3 => "F3"@,
            SpecialKey::F4 => "F4"@,
            SpecialKey::F5 => "F5"@,
            SpecialKey::F6 => "F6"@,
            SpecialKey::F7 => "F7"@,
            SpecialKey::F8 => "F8"@,
            SpecialKey::F9 => "F9"@,
            SpecialKey::F10 => "F10"@,
            SpecialKey::F11 => "F11"@,
            SpecialKey::F12 => "F12"@,
            SpecialKey::NumLock => "NumLock"@,
            SpecialKey::ScrollLock => "ScrollLock"@,
        }
    }

    /// The display name, executable form.
    pub fn name(&self) -> (r: &'static str)
        ensures
            r@ == self.name_seq(),
    {
        match self {
            SpecialKey::BackSpace => "BackSpace",
            SpecialKey::Tab => "Tab",
            SpecialKey::Clear => "Clear",
            SpecialKey::Enter => "Enter",
            SpecialKey::Pause => "Pause",
            SpecialKey::Caplock => "Caplock",
            SpecialKey::Escape => "Escape",
            SpecialKey::SpaceBar => "SpaceBar",
            SpecialKey::PageUp => "PageUp",
            SpecialKey::PageDown => "PageDown",
            SpecialKey::End => "End",
            SpecialKey::Home => "Home",
            SpecialKey::LeftArrow => "LeftArrow",
            SpecialKey::UpArrow => "UpArrow",
            SpecialKey::RightArrow => "RightArrow",
            SpecialKey::DownArrow => "DownArrow",
            SpecialKey::Select => "Select",
            SpecialKey::Print => "Print",
            SpecialKey::PrintScreen => "PrintScreen",
            SpecialKey::Insert => "Insert",
            SpecialKey::Delete => "Delete",
            SpecialKey::F1 => "F1",
            SpecialKey::F2 => "F2",
            SpecialKey::F3 => "F3",
            SpecialKey::F4 => "F4",
            SpecialKey::F5 => "F5",
            SpecialKey::F6 => "F6",
            SpecialKey::F7 => "F7",
            SpecialKey::F8 => "F8",
            SpecialKey::F9 => "F9",
            SpecialKey::F10 => "F10",
            SpecialKey::F11 => "F11",
            SpecialKey::F12 => "F12",
            SpecialKey::NumLock => "NumLock",
            SpecialKey::ScrollLock => "ScrollLock",
        }
    }

    pub fn as_u32(&self) -> (r: u32)
        ensures
            r == self.code(),
    {
        match self {
            SpecialKey::BackSpace => 8,
            SpecialKey::Tab => 9,
            SpecialKey::Clear => 12,
            SpecialKey::Enter => 13,
            SpecialKey::Pause => 19,
            SpecialKey::Caplock => 20,
            SpecialKey::Escape => 27,
            SpecialKey::SpaceBar => 32,
            SpecialKey::PageUp => 33,
            SpecialKey::PageDown => 34,
            SpecialKey::End => 35,
            SpecialKey::Home => 36,
            SpecialKey::LeftArrow => 37,
            SpecialKey::UpArrow => 38,
            SpecialKey::RightArrow => 39,
            SpecialKey::DownArrow => 40,
            SpecialKey::Select => 41,
            SpecialKey::Print => 42,
            SpecialKey::PrintScreen => 44,
            SpecialKey::Insert => 45,
            SpecialKey::Delete => 46,
            SpecialKey::F1 => 112,
            SpecialKey::F2 => 113,
            SpecialKey::F3 => 114,
            SpecialKey::F4 => 115,
            SpecialKey::F5 => 116,
            SpecialKey::F6 => 117,
            SpecialKey::F7 => 118,
            SpecialKey::F8 => 119,
            SpecialKey::F9 => 120,
            SpecialKey::F10 => 121,
            SpecialKey::F11 => 122,
            SpecialKey::F12 => 123,
            SpecialKey::NumLock => 144,
            SpecialKey::ScrollLock => 145,
        }
    }

    /// Parses a key name, matching case-insensitively.
    pub fn from_str(source: &str) -> (r: Option<SpecialKey>)
        ensures
            r == special_of_upper(upper_seq(source@)),
    {
        let tok = chars_of(source);
        SpecialKey::from_token(&tok)
    }

    /// Parses a key name given as a character vector.
    pub fn from_token(tok: &Vec<char>) -> (r: Option<SpecialKey>)
        ensures
            r == special_of_upper(upper_seq(tok@)),
    {
        if upper_token_is(tok, "BACKSPACE") {
            Some(SpecialKey::BackSpace)
        } else if upper_token_is(tok, "TAB") {
            Some(SpecialKey::Tab)
        } else if upper_token_is(tok, "CLEAR") {
            Some(SpecialKey::Clear)
        } else if upper_token_is(tok, "ENTER") {
            Some(SpecialKey::Enter)
        } else if upper_token_is(tok, "PAUSE") {
            Some(SpecialKey::Pause)
        } else if upper_token_is(tok, "CAPLOCK") {
            Some(SpecialKey::Caplock)
        } else if upper_token_is(tok, "ESCAPE") {
            Some(SpecialKey::Escape)
        } else if upper_token_is(tok, "SPACEBAR") {
            Some(SpecialKey::SpaceBar)
        } else if upper_token_is(tok, "PAGEUP") {
            Some(SpecialKey::PageUp)
        } else if upper_token_is(tok, "PAGEDOWN") {
            Some(SpecialKey::PageDown)
        } else if upper_token_is(tok, "END") {
            Some(SpecialKey::End)
        } else if upper_token_is(tok, "HOME") {
            Some(SpecialKey::Home)
        } else if upper_token_is(tok, "LEFTARROW") {
            Some(SpecialKey::LeftArrow)
        } else if upper_token_is(tok, "UPARROW") {
            Some(SpecialKey::UpArrow)
        } else if upper_token_is(tok, "RIGHTARROW") {
            Some(SpecialKey::RightArrow)
        } else if upper_token_is(tok, "DOWNARROW") {
            Some(SpecialKey::DownArrow)
        } else if upper_token_is(tok, "SELECT") {
            Some(SpecialKey::Select)
        } else if upper_token_is(tok, "PRINT") {
            Some(SpecialKey::Print)
        } else if upper_token_is(tok, "PRINTSCREEN") {
            Some(SpecialKey::PrintScreen)
        } else if upper_token_is(tok, "INSERT") {
            Some(SpecialKey::Insert)
        } else if upper_token_is(tok, "DELETE") {
            Some(SpecialKey::Delete)
        } else if upper_token_is(tok, "F1") {
            Some(SpecialKey::F1)
        } else if upper_token_is(tok, "F2") {
            Some(SpecialKey::F2)
        } else if upper_token_is(tok, "F3") {
            Some(SpecialKey::F3)
        } else if upper_token_is(tok, "F4") {
            Some(SpecialKey::F4)
        } else if upper_token_is(tok, "F5") {
            Some(SpecialKey::F5)
        } else if upper_token_is(tok, "F6") {
            Some(SpecialKey::F6)
        } else if upper_token_is(tok, "F7") {
            Some(SpecialKey::F7)
        } else if upper_token_is(tok, "F8") {
            Some(SpecialKey::F8)
        } else if upper_token_is(tok, "F9") {
            Some(SpecialKey::F9)
        } else if upper_token_is(tok, "F10") {
            Some(SpecialKey::F10)
        } else if upper_token_is(tok, "F11") {
            Some(SpecialKey::F11)
        } else if upper_token_is(tok, "F12") {
            Some(SpecialKey::F12)
        } else if upper_token_is(tok, "NUMLOCK") {
            Some(SpecialKey::NumLock)
        } else if upper_token_is(tok, "SCROLLLOCK") {
            Some(SpecialKey::ScrollLock)
        } else {
            None
        }
    }
}

/// The special key whose case-folded name is the given (already folded)
/// sequence, if any.
pub open spec fn special_of_upper(t: Seq<char>) -> Option<SpecialKey> {
    if t == "BACKSPACE"@ {
        Some(SpecialKey::BackSpace)
    } else if t == "TAB"@ {
        Some(SpecialKey::Tab)
    } else if t == "CLEAR"@ {
        Some(SpecialKey::Clear)
    } else if t == "ENTER"@ {
        Some(SpecialKey::Enter)
    } else if t == "PAUSE"@ {
        Some(SpecialKey::Pause)
    } else if t == "CAPLOCK"@ {
        Some(SpecialKey::Caplock)
    } else if t == "ESCAPE"@ {
        Some(SpecialKey::Escape)
    } else if t == "SPACEBAR"@ {
        Some(SpecialKey::SpaceBar)
    } else if t == "PAGEUP"@ {
        Some(SpecialKey::PageUp)
    } else if t == "PAGEDOWN"@ {
        Some(SpecialKey::PageDown)
    } else if t == "END"@ {
        Some(SpecialKey::End)
    } else if t == "HOME"@ {
        Some(SpecialKey::Home)
    } else if t == "LEFTARROW"@ {
        Some(SpecialKey::LeftArrow)
    } else if t == "UPARROW"@ {
        Some(SpecialKey::UpArrow)
    } else if t == "RIGHTARROW"@ {
        Some(SpecialKey::RightArrow)
    } else if t == "DOWNARROW"@ {
        Some(SpecialKey::DownArrow)
    } else if t == "SELECT"@ {
        Some(SpecialKey::Select)
    } else if t == "PRINT"@ {
        Some(SpecialKey::Print)
    } else if t == "PRINTSCREEN"@ {
        Some(SpecialKey::PrintScreen)
    } else if t == "INSERT"@ {
        Some(SpecialKey::Insert)
    } else if t == "DELETE"@ {
        Some(SpecialKey::Delete)
    } else if t == "F1"@ {
        Some(SpecialKey::F1)
    } else if t == "F2"@ {
        Some(SpecialKey::F2)
    } else if t == "F3"@ {
        Some(SpecialKey::F3)
    } else if t == "F4"@ {
        Some(SpecialKey::F4)
    } else if t == "F5"@ {
        Some(SpecialKey::F5)
    } else if t == "F6"@ {
        Some(SpecialKey::F6)
    } else if t == "F7"@ {
        Some(SpecialKey::F7)
    } else if t == "F8"@ {
        Some(SpecialKey::F8)
    } else if t == "F9"@ {
        Some(SpecialKey::F9)
    } else if t == "F10"@ {
        Some(SpecialKey::F10)
    } else if t == "F11"@ {
        Some(SpecialKey::F11)
    } else if t == "F12"@ {
        Some(SpecialKey::F12)
    } else if t == "NUMLOCK"@ {
        Some(SpecialKey::NumLock)
    } else if t == "SCROLLLOCK"@ {
        Some(SpecialKey::ScrollLock)
    } else {
        None
    }
}

/// Every special-key display name is at least two characters, contains no
/// delimiter and no whitespace, is not a modifier name even after case
/// folding, and parses back to its own key.
pub proof fn lemma_special_name_props(k: SpecialKey)
    ensures
        k.name_seq().len() >= 2,
        forall|i: int|
            0 <= i < k.name_seq().len() ==> k.name_seq()[i] != '+' && !is_space(k.name_seq()[i]),
        upper_seq(k.name_seq()) != "CTRL"@,
        upper_seq(k.name_seq()) != "SHIFT"@,
        upper_seq(k.name_seq()) != "ALT"@,
        upper_seq(k.name_seq()) != "WIN"@,
        special_of_upper(upper_seq(k.name_seq())) == Some(k),
{
    reveal_strlit("CTRL");
    reveal_strlit("SHIFT");
    reveal_strlit("ALT");
    reveal_strlit("WIN");
    reveal_strlit("BackSpace");
    reveal_strlit("BACKSPACE");
    reveal_strlit("Tab");
    reveal_strlit("TAB");
    reveal_strlit("Clear");
    reveal_strlit("CLEAR");
    reveal_strlit("Enter");
    reveal_strlit("ENTER");
    reveal_strlit("Pause");
    reveal_strlit("PAUSE");
    reveal_strlit("Caplock");
    reveal_strlit("CAPLOCK");
    reveal_strlit("Escape");
    reveal_strlit("ESCAPE");
    reveal_strlit("SpaceBar");
    reveal_strlit("SPACEBAR");
    reveal_strlit("PageUp");
    reveal_strlit("PAGEUP");
    reveal_strlit("PageDown");
    reveal_strlit("PAGEDOWN");
    reveal_strlit("End");
    reveal_strlit("END");
    reveal_strlit("Home");
    reveal_strlit("HOME");
    reveal_strlit("LeftArrow");
    reveal_strlit("LEFTARROW");
    reveal_strlit("UpArrow");
    reveal_strlit("UPARROW");
    reveal_strlit("RightArrow");
    reveal_strlit("RIGHTARROW");
    reveal_strlit("DownArrow");
    reveal_strlit("DOWNARROW");
    reveal_strlit("Select");
    reveal_strlit("SELECT");
    reveal_strlit("Print");
    reveal_strlit("PRINT");
    reveal_strlit("PrintScreen");
    reveal_strlit("PRINTSCREEN");
    reveal_strlit("Insert");
    reveal_strlit("INSERT");
    reveal_strlit("Delete");
    reveal_strlit("DELETE");
    reveal_strlit("F1");
    reveal_strlit("F2");
    reveal_strlit("F3");
    reveal_strlit("F4");
    reveal_strlit("F5");
    reveal_strlit("F6");
    reveal_strlit("F7");
    reveal_strlit("F8");
    reveal_strlit("F9");
    reveal_strlit("F10");
    reveal_strlit("F11");
    reveal_strlit("F12");
    reveal_strlit("NumLock");
    reveal_strlit("NUMLOCK");
    reveal_strlit("ScrollLock");
    reveal_strlit("SCROLLLOCK");
    match k {
        SpecialKey::BackSpace => {
            assert(upper_seq("BackSpace"@) =~= "BACKSPACE"@);
            assert(special_of_upper("BACKSPACE"@) == Some(SpecialKey::BackSpace));
        },
        SpecialKey::Tab => {
            assert(upper_seq("Tab"@) =~= "TAB"@);
            assert("TAB"@[0] != "ALT"@[0]);
            assert("TAB"@[0] != "WIN"@[0]);
            assert(special_of_upper("TAB"@) == Some(SpecialKey::Tab));
        },
        SpecialKey::Clear => {
            assert(upper_seq("Clear"@) =~= "CLEAR"@);
            assert("CLEAR"@[0] != "SHIFT"@[0]);
            assert(special_of_upper("CLEAR"@) == Some(SpecialKey::Clear));
        },
        SpecialKey::Enter => {
            assert(upper_seq("Enter"@) =~= "ENTER"@);
            assert("ENTER"@[0] != "SHIFT"@[0]);
            assert("ENTER"@[0] != "CLEAR"@[0]);
            assert(special_of_upper("ENTER"@) == Some(SpecialKey::Enter));
        },
        SpecialKey::Pause => {
            assert(upper_seq("Pause"@) =~= "PAUSE"@);
            assert("PAUSE"@[0] != "SHIFT"@[0]);
            assert("PAUSE"@[0] != "CLEAR"@[0]);
            assert("PAUSE"@[0] != "ENTER"@[0]);
            assert(special_of_upper("PAUSE"@) == Some(SpecialKey::Pause));
        },
        SpecialKey::Caplock => {
            assert(upper_seq("Caplock"@) =~= "CAPLOCK"@);
            assert(special_of_upper("CAPLOCK"@) == Some(SpecialKey::Caplock));
        },
        SpecialKey::Escape => {
            assert(upper_seq("Escape"@) =~= "ESCAPE"@);
            assert(special_of_upper("ESCAPE"@) == Some(SpecialKey::Escape));
        },
        SpecialKey::SpaceBar => {
            assert(upper_seq("SpaceBar"@) =~= "SPACEBAR"@);
            assert(special_of_upper("SPACEBAR"@) == Some(SpecialKey::SpaceBar));
        },
        SpecialKey::PageUp => {
            assert(upper_seq("PageUp"@) =~= "PAGEUP"@);
            assert("PAGEUP"@[0] != "ESCAPE"@[0]);
            assert(special_of_upper("PAGEUP"@) == Some(SpecialKey::PageUp));
        },
        SpecialKey::PageDown => {
            assert(upper_seq("PageDown"@) =~= "PAGEDOWN"@);
            assert("PAGEDOWN"@[0] != "SPACEBAR"@[0]);
            assert(special_of_upper("PAGEDOWN"@) == Some(SpecialKey::PageDown));
        },
        SpecialKey::End => {
            assert(upper_seq("End"@) =~= "END"@);
            assert("END"@[0] != "ALT"@[0]);
            assert("END"@[0] != "WIN"@[0]);
            assert("END"@[0] != "TAB"@[0]);
            assert(special_of_upper("END"@) == Some(SpecialKey::End));
        },
        SpecialKey::Home => {
            assert(upper_seq("Home"@) =~= "HOME"@);
            assert("HOME"@[0] != "CTRL"@[0]);
            assert(special_of_upper("HOME"@) == Some(SpecialKey::Home));
        },
        SpecialKey::LeftArrow => {
            assert(upper_seq("LeftArrow"@) =~= "LEFTARROW"@);
            assert("LEFTARROW"@[0] != "BACKSPACE"@[0]);
            assert(special_of_upper("LEFTARROW"@) == Some(SpecialKey::LeftArrow));
        },
        SpecialKey::UpArrow => {
            assert(upper_seq("UpArrow"@) =~= "UPARROW"@);
            assert("UPARROW"@[0] != "CAPLOCK"@[0]);
            assert(special_of_upper("UPARROW"@) == Some(SpecialKey::UpArrow));
        },
        SpecialKey::RightArrow => {
            assert(upper_seq("RightArrow"@) =~= "RIGHTARROW"@);
            assert(special_of_upper("RIGHTARROW"@) == Some(SpecialKey::RightArrow));
        },
        SpecialKey::DownArrow => {
            assert(upper_seq("DownArrow"@) =~= "DOWNARROW"@);
            assert("DOWNARROW"@[0] != "BACKSPACE"@[0]);
            assert("DOWNARROW"@[0] != "LEFTARROW"@[0]);
            assert(special_of_upper("DOWNARROW"@) == Some(SpecialKey::DownArrow));
        },
        SpecialKey::Select => {
            assert(upper_seq("Select"@) =~= "SELECT"@);
            assert("SELECT"@[0] != "ESCAPE"@[0]);
            assert("SELECT"@[0] != "PAGEUP"@[0]);
            assert(special_of_upper("SELECT"@) == Some(SpecialKey::Select));
        },
        SpecialKey::Print => {
            assert(upper_seq("Print"@) =~= "PRINT"@);
            assert("PRINT"@[0] != "SHIFT"@[0]);
            assert("PRINT"@[0] != "CLEAR"@[0]);
            assert("PRINT"@[0] != "ENTER"@[0]);
            assert("PRINT"@[1] != "PAUSE"@[1]);
            assert(special_of_upper("PRINT"@) == Some(SpecialKey::Print));
        },
        SpecialKey::PrintScreen => {
            assert(upper_seq("PrintScreen"@) =~= "PRINTSCREEN"@);
            assert(special_of_upper("PRINTSCREEN"@) == Some(SpecialKey::PrintScreen));
        },
        SpecialKey::Insert => {
            assert(upper_seq("Insert"@) =~= "INSERT"@);
            assert("INSERT"@[0] != "ESCAPE"@[0]);
            assert("INSERT"@[0] != "PAGEUP"@[0]);
            assert("INSERT"@[0] != "SELECT"@[0]);
            assert(special_of_upper("INSERT"@) == Some(SpecialKey::Insert));
        },
        SpecialKey::Delete => {
            assert(upper_seq("Delete"@) =~= "DELETE"@);
            assert("DELETE"@[0] != "ESCAPE"@[0]);
            assert("DELETE"@[0] != "PAGEUP"@[0]);
            assert("DELETE"@[0] != "SELECT"@[0]);
            assert("DELETE"@[0] != "INSERT"@[0]);
            assert(special_of_upper("DELETE"@) == Some(SpecialKey::Delete));
        },
        SpecialKey::F1 => {
            assert(upper_seq("F1"@) =~= "F1"@);
            assert(special_of_upper("F1"@) == Some(SpecialKey::F1));
        },
        SpecialKey::F2 => {
            assert(upper_seq("F2"@) =~= "F2"@);
            assert("F2"@[1] != "F1"@[1]);
            assert(special_of_upper("F2"@) == Some(SpecialKey::F2));
        },
        SpecialKey::F3 => {
            assert(upper_seq("F3"@) =~= "F3"@);
            assert("F3"@[1] != "F1"@[1]);
            assert("F3"@[1] != "F2"@[1]);
            assert(special_of_upper("F3"@) == Some(SpecialKey::F3));
        },
        SpecialKey::F4 => {
            assert(upper_seq("F4"@) =~= "F4"@);
            assert("F4"@[1] != "F1"@[1]);
            assert("F4"@[1] != "F2"@[1]);
            assert("F4"@[1] != "F3"@[1]);
            assert(special_of_upper("F4"@) == Some(SpecialKey::F4));
        },
        SpecialKey::F5 => {
            assert(upper_seq("F5"@) =~= "F5"@);
            assert("F5"@[1] != "F1"@[1]);
            assert("F5"@[1] != "F2"@[1]);
            assert("F5"@[1] != "F3"@[1]);
            assert("F5"@[1] != "F4"@[1]);
            assert(special_of_upper("F5"@) == Some(SpecialKey::F5));
        },
        SpecialKey::F6 => {
            assert(upper_seq("F6"@) =~= "F6"@);
            assert("F6"@[1] != "F1"@[1]);
            assert("F6"@[1] != "F2"@[1]);
            assert("F6"@[1] != "F3"@[1]);
            assert("F6"@[1] != "F4"@[1]);
            assert("F6"@[1] != "F5"@[1]);
            assert(special_of_upper("F6"@) == Some(SpecialKey::F6));
        },
        SpecialKey::F7 => {
            assert(upper_seq("F7"@) =~= "F7"@);
            assert("F7"@[1] != "F1"@[1]);
            assert("F7"@[1] != "F2"@[1]);
            assert("F7"@[1] != "F3"@[1]);
            assert("F7"@[1] != "F4"@[1]);
            assert("F7"@[1] != "F5"@[1]);
            assert("F7"@[1] != "F6"@[1]);
            assert(special_of_upper("F7"@) == Some(SpecialKey::F7));
        },
        SpecialKey::F8 => {
            assert(upper_seq("F8"@) =~= "F8"@);
            assert("F8"@[1] != "F1"@[1]);
            assert("F8"@[1] != "F2"@[1]);
            assert("F8"@[1] != "F3"@[1]);
            assert("F8"@[1] != "F4"@[1]);
            assert("F8"@[1] != "F5"@[1]);
            assert("F8"@[1] != "F6"@[1]);
            assert("F8"@[1] != "F7"@[1]);
            assert(special_of_upper("F8"@) == Some(SpecialKey::F8));
        },
        SpecialKey::F9 => {
            assert(upper_seq("F9"@) =~= "F9"@);
            assert("F9"@[1] != "F1"@[1]);
            assert("F9"@[1] != "F2"@[1]);
            assert("F9"@[1] != "F3"@[1]);
            assert("F9"@[1] != "F4"@[1]);
            assert("F9"@[1] != "F5"@[1]);
            assert("F9"@[1] != "F6"@[1]);
            assert("F9"@[1] != "F7"@[1]);
            assert("F9"@[1] != "F8"@[1]);
            assert(special_of_upper("F9"@) == Some(SpecialKey::F9));
        },
        SpecialKey::F10 => {
            assert(upper_seq("F10"@) =~= "F10"@);
            assert("F10"@[0] != "ALT"@[0]);
            assert("F10"@[0] != "WIN"@[0]);
            assert("F10"@[0] != "TAB"@[0]);
            assert("F10"@[0] != "END"@[0]);
            assert(special_of_upper("F10"@) == Some(SpecialKey::F10));
        },
        SpecialKey::F11 => {
            assert(upper_seq("F11"@) =~= "F11"@);
            assert("F11"@[0] != "ALT"@[0]);
            assert("F11"@[0] != "WIN"@[0]);
            assert("F11"@[0] != "TAB"@[0]);
            assert("F11"@[0] != "END"@[0]);
            assert("F11"@[2] != "F10"@[2]);
            assert(special_of_upper("F11"@) == Some(SpecialKey::F11));
        },
        SpecialKey::F12 => {
            assert(upper_seq("F12"@) =~= "F12"@);
            assert("F12"@[0] != "ALT"@[0]);
            assert("F12"@[0] != "WIN"@[0]);
            assert("F12"@[0] != "TAB"@[0]);
            assert("F12"@[0] != "END"@[0]);
            assert("F12"@[2] != "F10"@[2]);
            assert("F12"@[2] != "F11"@[2]);
            assert(special_of_upper("F12"@) == Some(SpecialKey::F12));
        },
        SpecialKey::NumLock => {
            assert(upper_seq("NumLock"@) =~= "NUMLOCK"@);
            assert("NUMLOCK"@[0] != "CAPLOCK"@[0]);
            assert("NUMLOCK"@[0] != "UPARROW"@[0]);
            assert(special_of_upper("NUMLOCK"@) == Some(SpecialKey::NumLock));
        },
        SpecialKey::ScrollLock => {
            assert(upper_seq("ScrollLock"@) =~= "SCROLLLOCK"@);
            assert("SCROLLLOCK"@[0] != "RIGHTARROW"@[0]);
            assert(special_of_upper("SCROLLLOCK"@) == Some(SpecialKey::ScrollLock));
        },
    }
}

} // verus!
