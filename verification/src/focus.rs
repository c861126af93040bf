//! The focus script and its observable effect on the embedded document.
//!
//! The script is fixed and parameterless: evaluated in the embedded page, it
//! moves input focus to the one chat input control, found by a stable
//! selector. Script-side failures are invisible to the caller: when the
//! control is not present in the current document, nothing changes.

use vstd::prelude::*;

verus! {

/// Where input focus stands inside the embedded document.
#[derive(Clone, Copy, PartialEq, Eq, Structural, Debug)]
pub enum FocusState {
    /// No control holds input focus.
    Nowhere,
    /// The chat input control holds focus.
    OnInputControl,
    /// Some other control holds focus, named by an id.
    Elsewhere(u64),
}

/// The embedded document, as far as the focus script observes it: whether
/// the chat input control exists, and which control holds input focus.
#[derive(Clone, Copy, PartialEq, Eq, Structural, Debug)]
pub struct DocumentModel {
    pub has_input_control: bool,
    pub focused: FocusState,
}

/// The effect of one evaluation of the focus script: focus moves to the
/// input control when it exists; otherwise the document is untouched.
pub open spec fn spec_apply_focus(d: DocumentModel) -> DocumentModel {
    if d.has_input_control {
        DocumentModel { has_input_control: d.has_input_control, focused: FocusState::OnInputControl }
    } else {
        d
    }
}

/// Evaluate the focus script against the document model.
pub fn apply_focus_script(d: &mut DocumentModel)
    ensures
        *final(d) == spec_apply_focus(*old(d)),
{
    if d.has_input_control {
        d.focused = FocusState::OnInputControl;
    }
}

/// The focus script is idempotent: evaluating it twice leaves the same
/// control focused as evaluating it once.
pub proof fn lemma_focus_script_idempotent(d: DocumentModel)
    ensures
        spec_apply_focus(spec_apply_focus(d)) == spec_apply_focus(d),
{
}

/// The text of the focus script, as evaluated in the embedded document.
pub fn focus_script_text() -> (r: &'static str)
    ensures
        r@ == spec_focus_script_text(),
{
    "(function() { let el = document.querySelector('textarea.resize-none'); if (el) { el.focus(); } })();"
}

/// The fixed script text: a self-invoking function that looks the input
/// control up by its selector and focuses it when present.
pub open spec fn spec_focus_script_text() -> Seq<char> {
    "(function() { let el = document.querySelector('textarea.resize-none'); if (el) { el.focus(); } })();"@
}

} // verus!
