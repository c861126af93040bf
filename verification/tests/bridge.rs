use hotkey_capture::clipboard::ClipboardModel;
use hotkey_capture::focus::{apply_focus_script, focus_script_text, DocumentModel, FocusState};
use hotkey_capture::window::{reveal_and_focus, run_focus_script, WindowError, WindowModel};

fn wide(s: &str) -> Vec<u16> {
    s.encode_utf16().collect()
}

#[test]
fn read_of_empty_clipboard_is_absent() {
    let mut cb = ClipboardModel::new();
    assert_eq!(cb.read_text(), None);
}

#[test]
fn read_of_unicode_text_decodes_it() {
    let mut cb = ClipboardModel { locked: false, content: Some(wide("héllo \u{1F600}")) };
    assert_eq!(cb.read_text(), Some("héllo \u{1F600}".to_string()));
}

#[test]
fn read_of_held_clipboard_fails_without_blocking() {
    let mut cb = ClipboardModel { locked: true, content: Some(wide("text")) };
    assert_eq!(cb.read_text(), None);
}

#[test]
fn lock_is_released_after_every_operation() {
    // A second, independent acquisition attempt made immediately after each
    // operation succeeds: nothing stays locked behind.
    let mut cb = ClipboardModel { locked: false, content: Some(wide("text")) };
    let first = cb.read_text();
    assert_eq!(first, Some("text".to_string()));
    assert!(!cb.locked);
    let again = cb.read_text();
    assert_eq!(again, Some("text".to_string()));
    assert!(cb.clear());
    assert!(!cb.locked);
    assert!(cb.clear());
}

#[test]
fn clear_empties_the_clipboard() {
    let mut cb = ClipboardModel { locked: false, content: Some(wide("lingering")) };
    assert!(cb.clear());
    assert!(cb.content.is_none());
    let mut held = ClipboardModel { locked: true, content: Some(wide("kept")) };
    assert!(!held.clear());
    assert_eq!(held.content, Some(wide("kept")));
}

#[test]
fn copy_replaces_content_only_when_unlocked() {
    let mut cb = ClipboardModel { locked: false, content: Some(wide("old")) };
    cb.synthesize_copy(Some(wide("new")));
    assert_eq!(cb.content, Some(wide("new")));
    cb.synthesize_copy(None);
    assert_eq!(cb.content, Some(wide("new")));
    let mut held = ClipboardModel { locked: true, content: Some(wide("old")) };
    held.synthesize_copy(Some(wide("new")));
    assert_eq!(held.content, Some(wide("old")));
}

#[test]
fn focus_script_is_idempotent() {
    let mut d = DocumentModel { has_input_control: true, focused: FocusState::Elsewhere(3) };
    apply_focus_script(&mut d);
    let once = d;
    apply_focus_script(&mut d);
    assert_eq!(d, once, "running the script twice focuses the same control as once");
    assert_eq!(d.focused, FocusState::OnInputControl);
}

#[test]
fn focus_script_without_control_changes_nothing() {
    let mut d = DocumentModel { has_input_control: false, focused: FocusState::Nowhere };
    apply_focus_script(&mut d);
    assert_eq!(d, DocumentModel { has_input_control: false, focused: FocusState::Nowhere });
}

#[test]
fn focus_script_text_names_the_selector() {
    let script = focus_script_text();
    assert!(script.contains("textarea.resize-none"));
    assert!(script.contains("focus()"));
}

#[test]
fn reveal_restores_shows_and_focuses() {
    let mut w = WindowModel {
        present: true,
        minimized: true,
        visible: false,
        focused: false,
        doc: DocumentModel { has_input_control: true, focused: FocusState::Nowhere },
    };
    assert_eq!(reveal_and_focus(&mut w), Ok(()));
    assert!(!w.minimized && w.visible && w.focused);
}

#[test]
fn reveal_of_absent_window_fails_explicitly() {
    let mut w = WindowModel {
        present: false,
        minimized: false,
        visible: false,
        focused: false,
        doc: DocumentModel { has_input_control: false, focused: FocusState::Nowhere },
    };
    assert_eq!(reveal_and_focus(&mut w), Err(WindowError::Unavailable));
    assert!(!w.visible, "an absent window is never shown");
}

#[test]
fn focus_script_against_absent_window_is_a_no_op() {
    let mut w = WindowModel {
        present: false,
        minimized: false,
        visible: false,
        focused: false,
        doc: DocumentModel { has_input_control: true, focused: FocusState::Elsewhere(1) },
    };
    run_focus_script(&mut w);
    assert_eq!(w.doc.focused, FocusState::Elsewhere(1));
}
