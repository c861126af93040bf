//! The shell's main window, looked up by its logical id.
//!
//! The window may be absent — never created, or closed — and every
//! operation against an absent window is a no-op or an explicit failure,
//! never a crash. Revealing is best-effort and its sub-steps are
//! independent: a window that cannot be focused is still shown.

use crate::focus::{spec_apply_focus, DocumentModel};
use vstd::prelude::*;

verus! {

/// Why a window operation failed.
#[derive(Clone, Copy, PartialEq, Eq, Structural, Debug)]
pub enum WindowError {
    /// The target window was not found: never created, or already closed.
    Unavailable,
}

/// The main window as the pipeline observes it: whether the lookup by
/// logical id finds it, its visibility state, and its embedded document.
#[derive(Clone, Copy, PartialEq, Eq, Structural, Debug)]
pub struct WindowModel {
    pub present: bool,
    pub minimized: bool,
    pub visible: bool,
    pub focused: bool,
    pub doc: DocumentModel,
}

/// Restore the window if minimized, make it visible, and request input
/// focus, in that order. An absent window is an explicit failure and
/// nothing changes — in particular, no window is shown.
pub fn reveal_and_focus(w: &mut WindowModel) -> (r: Result<(), WindowError>)
    ensures
        final(w).present == old(w).present,
        final(w).doc == old(w).doc,
        old(w).present ==> (r is Ok && !final(w).minimized && final(w).visible
            && final(w).focused),
        !old(w).present ==> (r == Err::<(), WindowError>(WindowError::Unavailable) && *final(w)
            == *old(w)),
{
    if !w.present {
        return Err(WindowError::Unavailable);
    }
    w.minimized = false;
    w.visible = true;
    w.focused = true;
    Ok(())
}

/// Evaluate the focus script in the window's embedded document:
/// fire-and-forget, nothing of its completion is observed. Against an
/// absent window it is a no-op.
pub fn run_focus_script(w: &mut WindowModel)
    ensures
        final(w).present == old(w).present,
        final(w).minimized == old(w).minimized,
        final(w).visible == old(w).visible,
        final(w).focused == old(w).focused,
        old(w).present ==> final(w).doc == spec_apply_focus(old(w).doc),
        !old(w).present ==> final(w).doc == old(w).doc,
{
    if w.present {
        crate::focus::apply_focus_script(&mut w.doc);
    }
}

} // verus!
