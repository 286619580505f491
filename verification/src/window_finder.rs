//! The frontend-window filter and the enumeration session.
//!
//! The OS hands every top-level window to an enumeration callback; the
//! embedding program fetches each window's owner, title length and style
//! bits and feeds them here, where the accept-or-reject decision and the
//! accumulation of accepted handles are made and verified.

use vstd::prelude::*;

verus! {

/// Window style bits, as the OS defines them.
pub const WS_POPUP: u32 = 0x8000_0000;

pub const WS_VISIBLE: u32 = 0x1000_0000;

pub const WS_MINIMIZE: u32 = 0x2000_0000;

/// Extended style bit marking a floating tool window.
pub const WS_EX_TOOLWINDOW: u32 = 0x80;

/// A window the user would recognize as a running application: top-level
/// (no owner), with a title, visible, not a pop-up, and not a floating tool
/// window.
pub open spec fn spec_is_frontend(
    has_owner: bool,
    title_len: u32,
    style: u32,
    ex_style: u32,
) -> bool {
    &&& !has_owner
    &&& title_len != 0
    &&& style & WS_POPUP == 0
    &&& style & WS_VISIBLE != 0
    &&& ex_style & WS_EX_TOOLWINDOW == 0
}

/// One enumeration pass: the handles accepted so far, in enumeration order,
/// and the flag by which a caller may end the pass early.
pub struct EnumWindowParam {
    pub window_handles: Vec<u64>,
    pub continue_enum: bool,
}

impl EnumWindowParam {
    pub fn new() -> (r: Self)
        ensures
            r.window_handles@ == Seq::<u64>::empty(),
            r.continue_enum == true,
    {
        EnumWindowParam { window_handles: Vec::new(), continue_enum: true }
    }

    /// Resets stale state before a pass starts: no handles kept, and the
    /// pass set to continue.
    pub fn clear(&mut self)
        ensures
            final(self).window_handles@ == Seq::<u64>::empty(),
            final(self).continue_enum == true,
    {
        self.window_handles.clear();
        self.continue_enum = true;
    }

    /// Judges one enumerated window from its observed attributes, keeping
    /// its handle exactly when the frontend predicate accepts it.
    pub fn filter(
        &mut self,
        hwnd: u64,
        has_owner: bool,
        title_len: u32,
        style: u32,
        ex_style: u32,
    ) -> (r: bool)
        ensures
            r == spec_is_frontend(has_owner, title_len, style, ex_style),
            r ==> final(self).window_handles@ == old(self).window_handles@.push(hwnd),
            !r ==> final(self).window_handles@ == old(self).window_handles@,
            final(self).continue_enum == old(self).continue_enum,
    {
        let accept = WindowFinder::is_frontend_window(has_owner, title_len, style, ex_style);
        if accept {
            self.window_handles.push(hwnd);
        }
        accept
    }
}

pub struct WindowFinder;

impl WindowFinder {
    /// The frontend predicate over a window's observed attributes, exactly
    /// [`spec_is_frontend`].
    pub fn is_frontend_window(has_owner: bool, title_len: u32, style: u32, ex_style: u32) -> (r:
        bool)
        ensures
            r == spec_is_frontend(has_owner, title_len, style, ex_style),
    {
        !has_owner && title_len != 0 && style & WS_POPUP == 0 && style & WS_VISIBLE != 0 && ex_style
            & WS_EX_TOOLWINDOW == 0
    }
}

/// The filter's characteristic facts: an owned window is always rejected, an
/// untitled window is always rejected, and a titled, owner-less, visible,
/// non-pop-up, non-tool window is always accepted.
pub proof fn lemma_frontend_filter(has_owner: bool, title_len: u32, style: u32, ex_style: u32)
    ensures
        has_owner ==> !spec_is_frontend(has_owner, title_len, style, ex_style),
        title_len == 0 ==> !spec_is_frontend(has_owner, title_len, style, ex_style),
        (!has_owner && title_len != 0 && style & WS_POPUP == 0 && style & WS_VISIBLE != 0
            && ex_style & WS_EX_TOOLWINDOW == 0) ==> spec_is_frontend(
            has_owner,
            title_len,
            style,
            ex_style,
        ),
{
}

} // verus!
