//! The hotkey capture pipeline as an explicit state machine.
//!
//! One activation walks the phases
//! `Idle -> Copying -> Reading -> Revealing -> Injecting -> Clearing -> Idle`.
//! The machine never performs an operating-system action itself: each step
//! consumes the outcome of the previous action as an event and returns the
//! next action for the driver to perform. Every transition proceeds whether
//! or not the previous step succeeded, so the dominant failure modes (no
//! selection, no window) degrade to a no-op activation rather than a stuck
//! pipeline. A trigger that arrives while an activation is in flight is
//! dropped: only one activation is processed at a time.

use vstd::prelude::*;

verus! {

/// Where the machine stands inside one activation.
#[derive(Clone, Copy, PartialEq, Eq, Structural, Debug)]
pub enum Phase {
    /// No activation in flight.
    Idle,
    /// Copy synthesis was requested; its completion is awaited.
    Copying,
    /// The clipboard read was requested.
    Reading,
    /// The window reveal and focus script were requested.
    Revealing,
    /// Paste synthesis was requested.
    Injecting,
    /// The defensive clipboard clear was requested.
    Clearing,
}

/// The outcome of the driver's last action, fed back into the machine.
#[derive(Debug)]
pub enum PipelineEvent {
    /// The registered accelerator fired.
    Triggered,
    /// The copy chord was synthesized and the settle delay has passed.
    CopyDone,
    /// The clipboard read finished; absent when acquisition or the read
    /// itself failed.
    ReadDone { text: Option<String> },
    /// The window lookup and reveal finished; `window_found` says whether the
    /// target window existed at all.
    RevealDone { window_found: bool },
    /// The paste chord was synthesized and the settle delays have passed.
    PasteDone,
    /// The clipboard clear finished.
    ClearDone,
}

/// What the machine asks the driver to do next.
#[derive(Debug)]
pub enum Action {
    /// Synthesize the platform copy chord, then wait the settle delay.
    SynthesizeCopy,
    /// Read text from the system clipboard.
    ReadClipboard,
    /// Locate the target window; if present, restore, show and focus it and
    /// run the focus script; report whether it was found.
    RevealAndFocus { captured: String },
    /// Wait a settle delay, synthesize the paste chord, wait again.
    InjectPaste,
    /// Clear the system clipboard so the captured text does not linger.
    ClearClipboard,
    /// The activation is complete; the machine is idle again.
    Done,
    /// The event was dropped (a re-entrant trigger, or an outcome that does
    /// not belong to the current phase).
    Ignored,
}

/// The payload-free shape of an [`Action`], for specifications.
#[derive(Clone, Copy, PartialEq, Eq, Structural, Debug)]
pub enum ActionKind {
    SynthesizeCopy,
    ReadClipboard,
    RevealAndFocus,
    InjectPaste,
    ClearClipboard,
    Done,
    Ignored,
}

pub open spec fn kind_of(a: Action) -> ActionKind {
    match a {
        Action::SynthesizeCopy => ActionKind::SynthesizeCopy,
        Action::ReadClipboard => ActionKind::ReadClipboard,
        Action::RevealAndFocus { .. } => ActionKind::RevealAndFocus,
        Action::InjectPaste => ActionKind::InjectPaste,
        Action::ClearClipboard => ActionKind::ClearClipboard,
        Action::Done => ActionKind::Done,
        Action::Ignored => ActionKind::Ignored,
    }
}

/// The phase after consuming one event. An event that does not belong to the
/// current phase leaves the phase unchanged; in particular a re-entrant
/// trigger is dropped.
pub open spec fn step_phase(p: Phase, ev: PipelineEvent) -> Phase {
    match (p, ev) {
        (Phase::Idle, PipelineEvent::Triggered) => Phase::Copying,
        (Phase::Copying, PipelineEvent::CopyDone) => Phase::Reading,
        (Phase::Reading, PipelineEvent::ReadDone { .. }) => Phase::Revealing,
        (Phase::Revealing, PipelineEvent::RevealDone { window_found }) => if window_found {
            Phase::Injecting
        } else {
            Phase::Clearing
        },
        (Phase::Injecting, PipelineEvent::PasteDone) => Phase::Clearing,
        (Phase::Clearing, PipelineEvent::ClearDone) => Phase::Idle,
        _ => p,
    }
}

/// The action requested while consuming one event.
pub open spec fn step_action(p: Phase, ev: PipelineEvent) -> ActionKind {
    match (p, ev) {
        (Phase::Idle, PipelineEvent::Triggered) => ActionKind::SynthesizeCopy,
        (Phase::Copying, PipelineEvent::CopyDone) => ActionKind::ReadClipboard,
        (Phase::Reading, PipelineEvent::ReadDone { .. }) => ActionKind::RevealAndFocus,
        (Phase::Revealing, PipelineEvent::RevealDone { window_found }) => if window_found {
            ActionKind::InjectPaste
        } else {
            ActionKind::ClearClipboard
        },
        (Phase::Injecting, PipelineEvent::PasteDone) => ActionKind::ClearClipboard,
        (Phase::Clearing, PipelineEvent::ClearDone) => ActionKind::Done,
        _ => ActionKind::Ignored,
    }
}

/// The text an activation captures from a clipboard read outcome: the text
/// that was read, or the empty string when no read succeeded.
pub open spec fn captured_of(text: Option<String>) -> Seq<char> {
    match text {
        Some(s) => s@,
        None => Seq::empty(),
    }
}

/// The text a read-outcome event carries, as captured text.
pub open spec fn event_capture(ev: PipelineEvent) -> Seq<char> {
    match ev {
        PipelineEvent::ReadDone { text } => captured_of(text),
        _ => Seq::empty(),
    }
}

/// The capture pipeline: the machine's phase, and the text captured by the
/// activation in flight.
pub struct Pipeline {
    pub phase: Phase,
    pub captured: String,
}

impl Pipeline {
    /// A fresh machine: idle, with nothing captured.
    pub fn new() -> (r: Pipeline)
        ensures
            r.phase == Phase::Idle,
            r.captured@ == Seq::<char>::empty(),
    {
        Pipeline { phase: Phase::Idle, captured: String::new() }
    }

    /// Consume one event and return the next action for the driver. The phase
    /// and the requested action follow [`step_phase`] and [`step_action`]
    /// exactly; the clipboard read outcome is captured (an absent read as the
    /// explicit empty string) and handed to the reveal step.
    pub fn step(&mut self, ev: PipelineEvent) -> (a: Action)
        ensures
            final(self).phase == step_phase(old(self).phase, ev),
            kind_of(a) == step_action(old(self).phase, ev),
            (old(self).phase is Reading && ev is ReadDone) ==> (final(self).captured@
                == event_capture(ev) && (a matches Action::RevealAndFocus { captured } && captured@
                == event_capture(ev))),
            !(old(self).phase is Reading && ev is ReadDone) ==> final(self).captured == old(
                self,
            ).captured,
    {
        let p = self.phase;
        match (p, ev) {
            (Phase::Idle, PipelineEvent::Triggered) => {
                self.phase = Phase::Copying;
                Action::SynthesizeCopy
            },
            (Phase::Copying, PipelineEvent::CopyDone) => {
                self.phase = Phase::Reading;
                Action::ReadClipboard
            },
            (Phase::Reading, PipelineEvent::ReadDone { text }) => {
                let captured = crate::wide::capture_or_empty(text);
                self.captured = captured.clone();
                self.phase = Phase::Revealing;
                Action::RevealAndFocus { captured }
            },
            (Phase::Revealing, PipelineEvent::RevealDone { window_found }) => {
                if window_found {
                    self.phase = Phase::Injecting;
                    Action::InjectPaste
                } else {
                    self.phase = Phase::Clearing;
                    Action::ClearClipboard
                }
            },
            (Phase::Injecting, PipelineEvent::PasteDone) => {
                self.phase = Phase::Clearing;
                Action::ClearClipboard
            },
            (Phase::Clearing, PipelineEvent::ClearDone) => {
                self.phase = Phase::Idle;
                Action::Done
            },
            _ => Action::Ignored,
        }
    }
}

/// The phase after a whole run of events.
pub open spec fn run_phases(p: Phase, evs: Seq<PipelineEvent>) -> Phase
    decreases evs.len(),
{
    if evs.len() == 0 {
        p
    } else {
        run_phases(step_phase(p, evs[0]), evs.skip(1))
    }
}

/// The actions requested over a whole run of events, in order.
pub open spec fn run_actions(p: Phase, evs: Seq<PipelineEvent>) -> Seq<ActionKind>
    decreases evs.len(),
{
    if evs.len() == 0 {
        Seq::empty()
    } else {
        seq![step_action(p, evs[0])] + run_actions(step_phase(p, evs[0]), evs.skip(1))
    }
}

/// Only one activation is processed at a time: a trigger that fires while the
/// machine is not idle changes nothing and asks for nothing.
pub proof fn lemma_reentrant_trigger_dropped(p: Phase)
    requires
        p != Phase::Idle,
    ensures
        step_phase(p, PipelineEvent::Triggered) == p,
        step_action(p, PipelineEvent::Triggered) == ActionKind::Ignored,
{
}

/// The source phase each action is emitted from, and the action whose
/// emission enters each phase: the two facts the ordering proof rests on.
proof fn lemma_step_shape(q: Phase, ev: PipelineEvent)
    ensures
        step_action(q, ev) == ActionKind::ReadClipboard ==> q == Phase::Copying,
        step_phase(q, ev) == Phase::Copying && q != Phase::Copying ==> step_action(q, ev)
            == ActionKind::SynthesizeCopy,
        step_action(q, ev) == ActionKind::RevealAndFocus ==> q == Phase::Reading,
        step_phase(q, ev) == Phase::Reading && q != Phase::Reading ==> step_action(q, ev)
            == ActionKind::ReadClipboard,
{
}

/// Ordering, first half: in any run of the machine, a clipboard-read request
/// is preceded by a copy-synthesis request, unless the run began in the copy
/// phase. A driver performs each action before feeding back its outcome, so
/// on every activation the copy completes before the read.
pub proof fn lemma_read_preceded(p: Phase, evs: Seq<PipelineEvent>, j: int)
    requires
        0 <= j < run_actions(p, evs).len(),
        run_actions(p, evs)[j] == ActionKind::ReadClipboard,
    ensures
        p == Phase::Copying || exists|i: int|
            0 <= i < j && #[trigger] run_actions(p, evs)[i] == ActionKind::SynthesizeCopy,
    decreases evs.len(),
{
    let p1 = step_phase(p, evs[0]);
    let tail = run_actions(p1, evs.skip(1));
    let acts = run_actions(p, evs);
    lemma_step_shape(p, evs[0]);
    if j == 0 {
        assert(step_action(p, evs[0]) == ActionKind::ReadClipboard);
    } else {
        assert(acts[j] == tail[j - 1]);
        lemma_read_preceded(p1, evs.skip(1), j - 1);
        if p1 == Phase::Copying {
            if p != Phase::Copying {
                assert(acts[0] == ActionKind::SynthesizeCopy);
            }
        } else {
            let i0 = choose|i0: int|
                0 <= i0 < j - 1 && #[trigger] tail[i0] == ActionKind::SynthesizeCopy;
            assert(acts[i0 + 1] == tail[i0]);
        }
    }
}

/// Ordering, second half: in any run of the machine, a window-reveal request
/// is preceded by a clipboard-read request, unless the run began in the read
/// phase. So on every activation the read completes before the reveal.
pub proof fn lemma_reveal_preceded(p: Phase, evs: Seq<PipelineEvent>, j: int)
    requires
        0 <= j < run_actions(p, evs).len(),
        run_actions(p, evs)[j] == ActionKind::RevealAndFocus,
    ensures
        p == Phase::Reading || exists|i: int|
            0 <= i < j && #[trigger] run_actions(p, evs)[i] == ActionKind::ReadClipboard,
    decreases evs.len(),
{
    let p1 = step_phase(p, evs[0]);
    let tail = run_actions(p1, evs.skip(1));
    let acts = run_actions(p, evs);
    lemma_step_shape(p, evs[0]);
    if j == 0 {
        assert(step_action(p, evs[0]) == ActionKind::RevealAndFocus);
    } else {
        assert(acts[j] == tail[j - 1]);
        lemma_reveal_preceded(p1, evs.skip(1), j - 1);
        if p1 == Phase::Reading {
            if p != Phase::Reading {
                assert(acts[0] == ActionKind::ReadClipboard);
            }
        } else {
            let i0 = choose|i0: int|
                0 <= i0 < j - 1 && #[trigger] tail[i0] == ActionKind::ReadClipboard;
            assert(acts[i0 + 1] == tail[i0]);
        }
    }
}

/// Ordering within every run that starts idle: the machine asks for the
/// clipboard read only after it asked for copy synthesis, and asks for the
/// window reveal only after it asked for the clipboard read.
pub proof fn lemma_activation_ordering(evs: Seq<PipelineEvent>, j: int)
    requires
        0 <= j < run_actions(Phase::Idle, evs).len(),
    ensures
        run_actions(Phase::Idle, evs)[j] == ActionKind::ReadClipboard ==> exists|i: int|
            0 <= i < j && #[trigger] run_actions(Phase::Idle, evs)[i]
                == ActionKind::SynthesizeCopy,
        run_actions(Phase::Idle, evs)[j] == ActionKind::RevealAndFocus ==> exists|i: int|
            0 <= i < j && #[trigger] run_actions(Phase::Idle, evs)[i] == ActionKind::ReadClipboard,
{
    if run_actions(Phase::Idle, evs)[j] == ActionKind::ReadClipboard {
        lemma_read_preceded(Phase::Idle, evs, j);
    }
    if run_actions(Phase::Idle, evs)[j] == ActionKind::RevealAndFocus {
        lemma_reveal_preceded(Phase::Idle, evs, j);
    }
}

} // verus!
