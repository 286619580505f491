//! The configuration the dispatcher runs on: an ordered list of actions,
//! each binding a parsed hotkey to the executable it activates. Reading and
//! validating the on-disk form is the embedding program's job; the core
//! requires every hotkey here to be a valid parse result already.

use vstd::prelude::*;

use crate::hotkey::Hotkey;

verus! {

pub struct Config {
    pub startup: bool,
    pub actions: Vec<Action>,
}

pub struct Action {
    pub hotkey: Hotkey,
    pub exec_name: String,
}

} // verus!
