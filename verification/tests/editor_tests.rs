use onetext::{EditorCore, Encoding, LineEnding};

#[test]
fn test_new_core_is_clean_and_listening() {
    let core = EditorCore::new();
    assert!(!core.is_dirty);
    assert!(!core.input_events_suppressed());
    assert_eq!(core.history().len(), 1);
}

#[test]
fn test_input_event_records_edit_and_sets_dirty() {
    let mut core = EditorCore::new();
    let changed = core.handle_input_event("hello".into(), 5);
    assert!(changed);
    assert!(core.is_dirty);
    assert_eq!(core.history().len(), 2);
    assert_eq!(core.history().current_index, 1);
}

#[test]
fn test_undo_suppresses_resulting_notification() {
    let mut core = EditorCore::new();
    core.handle_input_event("a".into(), 1);
    core.handle_input_event("ab".into(), 2);

    let restore = core.undo().unwrap();
    assert_eq!(restore.text, "a");
    assert!(core.input_events_suppressed());
    let len = core.history().len();
    let index = core.history().current_index;

    // The buffer write performed for the restore triggers a notification;
    // while suppressed it must not create a new entry or move the cursor.
    let changed = core.handle_input_event("a".into(), 1);
    assert!(!changed);
    assert_eq!(core.history().len(), len);
    assert_eq!(core.history().current_index, index);

    // After the cycle settles, notifications count again.
    core.resume_input_events();
    core.handle_input_event("ax".into(), 2);
    assert_eq!(core.history().current_index, index + 1);
}

#[test]
fn test_redo_restores_caret_position() {
    let mut core = EditorCore::new();
    core.handle_input_event("ab\ncd".into(), 4);
    core.handle_input_event("ab\ncdx".into(), 6);
    core.undo().unwrap();
    core.resume_input_events();

    let restore = core.redo().unwrap();
    assert_eq!(restore.text, "ab\ncdx");
    assert_eq!(restore.position.line, 1);
    assert_eq!(restore.position.character, 3);
    assert!(core.input_events_suppressed());
}

#[test]
fn test_undo_at_bottom_is_a_quiet_no_op() {
    let mut core = EditorCore::new();
    assert!(core.undo().is_none());
    assert!(!core.input_events_suppressed());
}

#[test]
fn test_open_file_normalizes_and_resets() {
    let mut core = EditorCore::new();
    core.handle_input_event("scratch".into(), 7);
    assert!(core.is_dirty);

    let buffer = core.open_file("one\tword\r\nnext".into());
    assert_eq!(buffer, "one  word\r\nnext");
    assert!(!core.is_dirty);
    assert!(core.input_events_suppressed());
    assert_eq!(core.history().len(), 1);
    assert_eq!(core.line_ending(), LineEnding::Crlf);
    assert_eq!(core.encoding(), Encoding::Utf8);
}

#[test]
fn test_close_file_suppresses_clearing_notification() {
    let mut core = EditorCore::new();
    core.handle_input_event("text".into(), 4);
    core.close_file();
    assert!(!core.is_dirty);
    assert_eq!(core.history().len(), 1);
    assert_eq!(core.line_ending(), LineEnding::Lf);

    // The notification fired by clearing the buffer changes nothing.
    core.handle_input_event("".into(), 0);
    assert_eq!(core.history().len(), 1);
    assert_eq!(core.history().current_index, 0);
}

#[test]
fn test_mark_clean_clears_dirty() {
    let mut core = EditorCore::new();
    core.handle_input_event("edited".into(), 6);
    assert!(core.is_dirty);
    core.mark_clean();
    assert!(!core.is_dirty);
    assert!(!core.history().is_dirty());
}

#[test]
fn test_toggles_flip_display_state() {
    let mut core = EditorCore::new();
    assert!(core.soft_wrap);
    assert!(!core.toggle_soft_wrap());
    assert!(!core.soft_wrap);
    assert!(core.show_status_bar);
    core.toggle_status_bar();
    assert!(!core.show_status_bar);
}
