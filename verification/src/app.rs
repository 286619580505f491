//! The dispatcher's decisions, as pure functions from configuration, event
//! and observed window set to the action to perform. The embedding program
//! registers the returned bindings with the OS, blocks on the message
//! stream, and performs the raise the outcome calls for; every decision in
//! between is made and verified here.

use vstd::prelude::*;

use crate::config::Action;
use crate::config::Config;
use crate::hotkey::key_code_of;
use crate::hotkey::modifiers_mask;
use crate::version::Version;
use crate::window_finder::WS_MINIMIZE;

verus! {

/// One global-hotkey registration: a small integer id (1-based position in
/// the configuration), the modifier bitmask, and the key code.
#[derive(Clone, Copy, Debug, PartialEq, Eq, Structural)]
pub struct HotkeyBinding {
    pub id: i32,
    pub modifiers: u32,
    pub key_code: u32,
}

/// A message received from the OS stream, reduced to what the dispatcher
/// distinguishes: a hotkey fired with its registration id, the quit signal,
/// or anything else.
#[derive(Clone, Copy, Debug, PartialEq, Eq, Structural)]
pub enum DispatcherEvent {
    Hotkey(usize),
    Quit,
    Other,
}

/// One enumerated frontend window as the dispatcher sees it: its handle,
/// the executable path it resolved to (empty when the process query
/// failed), and its style bits.
pub struct WindowSnapshot {
    pub handle: u64,
    pub exe: String,
    pub style: u32,
}

/// What one dispatcher step decides: keep waiting, raise a window (restoring
/// it first when it is minimized), or stop the loop.
#[derive(Clone, Copy, Debug, PartialEq, Eq, Structural)]
pub enum DispatchOutcome {
    Continue,
    Raise { handle: u64, restore: bool },
    Stop,
}

/// The position of the first window whose resolved executable equals the
/// target, in enumeration order.
pub open spec fn first_match_from(ws: Seq<WindowSnapshot>, target: Seq<char>, k: int) -> Option<
    int,
>
    decreases ws.len() - k,
{
    if k < 0 || k >= ws.len() {
        None
    } else if ws[k].exe@ == target {
        Some(k)
    } else {
        first_match_from(ws, target, k + 1)
    }
}

pub open spec fn first_match(ws: Seq<WindowSnapshot>, target: Seq<char>) -> Option<int> {
    first_match_from(ws, target, 0)
}

/// What a dispatcher step must decide for each event: quit stops, unknown
/// events and unknown or unmatched ids are silent no-ops, and a fired
/// hotkey raises the first live window resolved to the bound executable,
/// restoring it exactly when its style marks it minimized.
pub open spec fn spec_dispatch(
    actions: Seq<Action>,
    event: DispatcherEvent,
    windows: Seq<WindowSnapshot>,
) -> DispatchOutcome {
    match event {
        DispatcherEvent::Quit => DispatchOutcome::Stop,
        DispatcherEvent::Other => DispatchOutcome::Continue,
        DispatcherEvent::Hotkey(id) => {
            if 1 <= id <= actions.len() {
                match first_match(windows, actions[id - 1].exec_name@) {
                    Some(i) => DispatchOutcome::Raise {
                        handle: windows[i].handle,
                        restore: windows[i].style & WS_MINIMIZE != 0,
                    },
                    None => DispatchOutcome::Continue,
                }
            } else {
                DispatchOutcome::Continue
            }
        },
    }
}

pub struct App {
    pub version: Version,
    pub config: Config,
}

impl App {
    /// Builds the application over an already validated configuration.
    pub fn init(config: Config) -> (r: Self)
        ensures
            r.version.major == 0 && r.version.minor == 1 && r.version.patch == 0,
            r.version.version@ == "0.1.0"@,
            r.config == config,
    {
        let version = Version::from_cargo_package();
        App { version, config }
    }

    pub fn get_version(&self) -> (r: &Version)
        ensures
            r == self.version,
    {
        &self.version
    }

    /// The registrations to perform on entering the armed state: one binding
    /// per action in configuration order, ids counting from 1.
    pub fn registration_plan(&self) -> (r: Vec<HotkeyBinding>)
        requires
            self.config.actions@.len() <= 0x7fff_fffe,
        ensures
            r@.len() == self.config.actions@.len(),
            forall|k: int|
                0 <= k < r@.len() ==> {
                    &&& (#[trigger] r@[k]).id == k + 1
                    &&& r@[k].modifiers == modifiers_mask(self.config.actions@[k].hotkey)
                    &&& r@[k].key_code == key_code_of(self.config.actions@[k].hotkey)
                },
    {
        let mut plan: Vec<HotkeyBinding> = Vec::new();
        let mut index: usize = 0;
        let n = self.config.actions.len();
        while index < n
            invariant
                index <= n,
                n == self.config.actions@.len(),
                n <= 0x7fff_fffe,
                plan@.len() == index,
                forall|k: int|
                    0 <= k < index ==> {
                        &&& (#[trigger] plan@[k]).id == k + 1
                        &&& plan@[k].modifiers == modifiers_mask(self.config.actions@[k].hotkey)
                        &&& plan@[k].key_code == key_code_of(self.config.actions@[k].hotkey)
                    },
            decreases n - index,
        {
            let action = &self.config.actions[index];
            let hotkey = &action.hotkey;
            plan.push(
                HotkeyBinding {
                    id: (index + 1) as i32,
                    modifiers: hotkey.get_modifiers(),
                    key_code: hotkey.get_key(),
                },
            );
            index += 1;
        }
        plan
    }

    /// One step of the armed dispatcher, exactly [`spec_dispatch`] over the
    /// configured actions, the received event, and the observed frontend
    /// windows.
    pub fn dispatch(&self, event: &DispatcherEvent, windows: &Vec<WindowSnapshot>) -> (r:
        DispatchOutcome)
        ensures
            r == spec_dispatch(self.config.actions@, *event, windows@),
    {
        match event {
            DispatcherEvent::Quit => DispatchOutcome::Stop,
            DispatcherEvent::Other => DispatchOutcome::Continue,
            DispatcherEvent::Hotkey(id) => {
                let id = *id;
                if 1 <= id && id <= self.config.actions.len() {
                    let action = &self.config.actions[id - 1];
                    let ghost tseq = action.exec_name@;
                    proof {
                        assert(tseq == self.config.actions@[id - 1].exec_name@);
                    }
                    let mut w: usize = 0;
                    let n = windows.len();
                    while w < n
                        invariant
                            w <= n,
                            n == windows@.len(),
                            *event is Hotkey,
                            (*event)->Hotkey_0 == id,
                            1 <= id <= self.config.actions@.len(),
                            action.exec_name@ == self.config.actions@[id - 1].exec_name@,
                            tseq == action.exec_name@,
                            first_match(windows@, tseq) == first_match_from(
                                windows@,
                                tseq,
                                w as int,
                            ),
                        decreases n - w,
                    {
                        let cand = &windows[w];
                        if cand.exe == action.exec_name {
                            proof {
                                assert(first_match_from(windows@, tseq, w as int) == Some(
                                    w as int,
                                ));
                            }
                            return DispatchOutcome::Raise {
                                handle: cand.handle,
                                restore: cand.style & WS_MINIMIZE != 0,
                            };
                        }
                        w += 1;
                    }
                    DispatchOutcome::Continue
                } else {
                    DispatchOutcome::Continue
                }
            },
        }
    }
}

} // verus!
