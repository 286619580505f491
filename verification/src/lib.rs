//! A global-hotkey window switcher core: a chord-string parser with a precise
//! error taxonomy, a canonical rendering of parsed hotkeys, the predicate that
//! picks out user-visible application windows, and the dispatcher decisions
//! that connect a fired hotkey to the window that should be raised.

pub mod app;
pub mod app_error;
pub mod config;
pub mod hotkey;
pub mod hotkey_laws;
pub mod key;
pub mod parse_hotkey_error;
pub mod special_key;
pub mod window_finder;
pub mod text;
pub mod version;

use vstd::prelude::*;

verus! {

} // verus!
