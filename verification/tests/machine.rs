use hotkey_capture::pipeline::{Action, Phase, Pipeline, PipelineEvent};

#[test]
fn starts_idle() {
    let p = Pipeline::new();
    assert_eq!(p.phase, Phase::Idle);
    assert_eq!(p.captured, String::new());
}

#[test]
fn full_activation_with_window() {
    let mut p = Pipeline::new();
    assert!(matches!(p.step(PipelineEvent::Triggered), Action::SynthesizeCopy));
    assert_eq!(p.phase, Phase::Copying);
    assert!(matches!(p.step(PipelineEvent::CopyDone), Action::ReadClipboard));
    assert_eq!(p.phase, Phase::Reading);
    let a = p.step(PipelineEvent::ReadDone { text: Some("Hello, world".to_string()) });
    match a {
        Action::RevealAndFocus { captured } => assert_eq!(captured, "Hello, world"),
        other => panic!("unexpected action: {:?}", other),
    }
    assert_eq!(p.phase, Phase::Revealing);
    assert!(matches!(
        p.step(PipelineEvent::RevealDone { window_found: true }),
        Action::InjectPaste
    ));
    assert_eq!(p.phase, Phase::Injecting);
    assert!(matches!(p.step(PipelineEvent::PasteDone), Action::ClearClipboard));
    assert_eq!(p.phase, Phase::Clearing);
    assert!(matches!(p.step(PipelineEvent::ClearDone), Action::Done));
    assert_eq!(p.phase, Phase::Idle);
}

#[test]
fn absent_window_skips_injection() {
    let mut p = Pipeline::new();
    p.step(PipelineEvent::Triggered);
    p.step(PipelineEvent::CopyDone);
    p.step(PipelineEvent::ReadDone { text: None });
    let a = p.step(PipelineEvent::RevealDone { window_found: false });
    assert!(matches!(a, Action::ClearClipboard));
    assert_eq!(p.phase, Phase::Clearing);
    assert!(matches!(p.step(PipelineEvent::ClearDone), Action::Done));
    assert_eq!(p.phase, Phase::Idle);
}

#[test]
fn failed_read_captures_empty_text() {
    let mut p = Pipeline::new();
    p.step(PipelineEvent::Triggered);
    p.step(PipelineEvent::CopyDone);
    let a = p.step(PipelineEvent::ReadDone { text: None });
    match a {
        Action::RevealAndFocus { captured } => assert_eq!(captured, String::new()),
        other => panic!("unexpected action: {:?}", other),
    }
}

#[test]
fn reentrant_trigger_is_dropped() {
    let mut p = Pipeline::new();
    p.step(PipelineEvent::Triggered);
    assert_eq!(p.phase, Phase::Copying);
    assert!(matches!(p.step(PipelineEvent::Triggered), Action::Ignored));
    assert_eq!(p.phase, Phase::Copying);
    p.step(PipelineEvent::CopyDone);
    assert!(matches!(p.step(PipelineEvent::Triggered), Action::Ignored));
    assert_eq!(p.phase, Phase::Reading);
}

#[test]
fn mismatched_events_are_ignored() {
    let mut p = Pipeline::new();
    assert!(matches!(p.step(PipelineEvent::PasteDone), Action::Ignored));
    assert_eq!(p.phase, Phase::Idle);
    assert!(matches!(p.step(PipelineEvent::ClearDone), Action::Ignored));
    assert!(matches!(p.step(PipelineEvent::CopyDone), Action::Ignored));
    assert_eq!(p.phase, Phase::Idle);
}

#[test]
fn actions_are_ordered_by_timestamps() {
    // An instrumented fake world: every completed step takes a timestamp
    // from one shared clock; the machine's requests must order them.
    let mut p = Pipeline::new();
    let mut clock: u64 = 0;
    let mut copy_done_at: Option<u64> = None;
    let mut read_done_at: Option<u64> = None;
    let mut reveal_done_at: Option<u64> = None;

    let mut pending = vec![PipelineEvent::Triggered];
    while let Some(ev) = pending.pop() {
        clock += 1;
        match p.step(ev) {
            Action::SynthesizeCopy => {
                clock += 1;
                copy_done_at = Some(clock);
                pending.push(PipelineEvent::CopyDone);
            }
            Action::ReadClipboard => {
                clock += 1;
                read_done_at = Some(clock);
                pending.push(PipelineEvent::ReadDone { text: Some("sel".to_string()) });
            }
            Action::RevealAndFocus { .. } => {
                clock += 1;
                reveal_done_at = Some(clock);
                pending.push(PipelineEvent::RevealDone { window_found: true });
            }
            Action::InjectPaste => {
                clock += 1;
                pending.push(PipelineEvent::PasteDone);
            }
            Action::ClearClipboard => {
                clock += 1;
                pending.push(PipelineEvent::ClearDone);
            }
            Action::Done => {}
            Action::Ignored => panic!("no event of the run may be ignored"),
        }
    }
    assert_eq!(p.phase, Phase::Idle);
    let copy = copy_done_at.expect("copy must have been requested");
    let read = read_done_at.expect("read must have been requested");
    let reveal = reveal_done_at.expect("reveal must have been requested");
    assert!(copy < read, "copy synthesis must complete before the read");
    assert!(read < reveal, "the read must complete before the reveal");
}
