//! One full activation of the capture pipeline, run against the library's
//! models of the clipboard and the window.
//!
//! The driver loop is written out straight: the state machine is asked for
//! each action in turn and the action is performed against the models. The
//! contract states the end-to-end behaviour: every activation runs to
//! completion; whenever the clipboard could be acquired it is empty
//! afterwards; a present window ends revealed, with the captured text
//! injected into it; an absent window means nothing is shown and nothing is
//! injected, while the clipboard is still cleared.

use crate::clipboard::{content_view, decoded_content, ClipboardModel};
use crate::pipeline::{Action, Phase, Pipeline, PipelineEvent};
use crate::window::WindowModel;
use vstd::prelude::*;

verus! {

/// What one activation delivered.
pub struct ActivationOutcome {
    /// The text pasted into the revealed window; absent when no window was
    /// found, so nothing was injected.
    pub injected: Option<String>,
}

/// The text one activation captures: nothing when the clipboard cannot be
/// acquired; otherwise the decoded selection the copy placed there, or the
/// decoded prior contents when nothing was selected.
pub open spec fn expected_capture(
    locked: bool,
    before: Option<Seq<u16>>,
    selection: Option<Seq<u16>>,
) -> Seq<char> {
    if locked {
        Seq::empty()
    } else {
        match selection {
            Some(sel) => decoded_content(sel),
            None => match before {
                Some(units) => decoded_content(units),
                None => Seq::empty(),
            },
        }
    }
}

/// Run one activation, from the accelerator firing to the machine returning
/// to idle.
pub fn run_activation(
    pipe: &mut Pipeline,
    cb: &mut ClipboardModel,
    win: &mut WindowModel,
    selection: Option<Vec<u16>>,
) -> (o: ActivationOutcome)
    requires
        old(pipe).phase == Phase::Idle,
    ensures
        final(pipe).phase == Phase::Idle,
        final(cb).locked == old(cb).locked,
        !old(cb).locked ==> final(cb).content is None,
        old(cb).locked ==> content_view(final(cb).content) == content_view(old(cb).content),
        final(win).present == old(win).present,
        !old(win).present ==> (o.injected is None && *final(win) == *old(win)),
        old(win).present ==> (final(win).visible && final(win).focused && !final(win).minimized
            && final(win).doc == crate::focus::spec_apply_focus(old(win).doc)),
        old(win).present ==> (o.injected matches Some(s) && s@ == expected_capture(
            old(cb).locked,
            content_view(old(cb).content),
            match selection {
                Some(sel) => Some(sel@),
                None => None,
            },
        )),
{
    pipe.step(PipelineEvent::Triggered);
    cb.synthesize_copy(selection);
    pipe.step(PipelineEvent::CopyDone);
    let text = cb.read_text();
    let a3 = pipe.step(PipelineEvent::ReadDone { text });
    let captured = match a3 {
        Action::RevealAndFocus { captured } => captured,
        _ => String::new(),
    };
    let revealed = crate::window::reveal_and_focus(win);
    let window_found = revealed.is_ok();
    if window_found {
        crate::window::run_focus_script(win);
        pipe.step(PipelineEvent::RevealDone { window_found: true });
        pipe.step(PipelineEvent::PasteDone);
        cb.clear();
        pipe.step(PipelineEvent::ClearDone);
        ActivationOutcome { injected: Some(captured) }
    } else {
        pipe.step(PipelineEvent::RevealDone { window_found: false });
        cb.clear();
        pipe.step(PipelineEvent::ClearDone);
        ActivationOutcome { injected: None }
    }
}

} // verus!
