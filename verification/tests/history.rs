use onetext::History;

#[test]
fn test_new_is_not_dirty() {
    let history = History::new();
    assert!(!history.is_dirty());
}

#[test]
fn test_push_makes_dirty() {
    let mut history = History::new();
    history.push("hello".into(), 5, 5);
    assert!(history.is_dirty());
}

#[test]
fn test_push_same_text_not_dirty() {
    let mut history = History::new();
    // Push same empty text with different cursor - should not create new entry
    history.push("".into(), 0, 0);
    assert!(!history.is_dirty());
}

#[test]
fn test_undo_returns_previous() {
    let mut history = History::new();
    history.push("first".into(), 5, 5);
    history.push("second".into(), 6, 6);

    let snapshot = history.undo().unwrap();
    assert_eq!(snapshot.text, "first");
}

#[test]
fn test_undo_at_start_returns_none() {
    let mut history = History::new();
    assert!(history.undo().is_none());
}

#[test]
fn test_redo_returns_next() {
    let mut history = History::new();
    history.push("first".into(), 5, 5);
    history.undo();

    let snapshot = history.redo().unwrap();
    assert_eq!(snapshot.text, "first");
}

#[test]
fn test_redo_invalidated_by_push() {
    let mut history = History::new();
    history.push("first".into(), 5, 5);
    history.undo();
    history.push("different".into(), 9, 9);

    // Redo should be gone
    assert!(history.redo().is_none());
}

#[test]
fn test_mark_saved_clears_dirty() {
    let mut history = History::new();
    history.push("changed".into(), 7, 7);
    assert!(history.is_dirty());

    history.mark_saved();
    assert!(!history.is_dirty());
}

#[test]
fn test_dirty_after_undo_past_saved() {
    let mut history = History::new();
    history.push("first".into(), 5, 5);
    history.mark_saved();
    history.push("second".into(), 6, 6);
    history.undo(); // back to "first"
    history.undo(); // back to ""

    // We're now before the saved point
    assert!(history.is_dirty());
}

#[test]
fn test_clear_resets_history() {
    let mut history = History::new();
    history.push("text".into(), 4, 4);
    history.mark_saved();

    history.clear("new content".into());

    assert!(!history.is_dirty());
    assert!(history.undo().is_none());
}

#[test]
fn test_identical_push_does_not_grow_stack() {
    let mut history = History::new();
    history.push("same".into(), 1, 1);
    let len_after_first = history.len();
    history.push("same".into(), 3, 4);
    assert_eq!(history.len(), len_after_first);
    assert_eq!(history.current_index, 1);

    // The top entry carries the cursor of the second push.
    history.push("other".into(), 0, 0);
    let snapshot = history.undo().unwrap();
    assert_eq!(snapshot.text, "same");
    assert_eq!(snapshot.cursor_anchor, 3);
    assert_eq!(snapshot.cursor_head, 4);
}

#[test]
fn test_undo_redo_round_trip_visits_in_order() {
    let mut history = History::new();
    history.push("one".into(), 3, 3);
    history.push("two".into(), 3, 3);
    history.push("three".into(), 5, 5);

    assert_eq!(history.undo().unwrap().text, "two");
    assert_eq!(history.undo().unwrap().text, "one");
    assert_eq!(history.redo().unwrap().text, "two");
    assert_eq!(history.redo().unwrap().text, "three");
    assert!(history.redo().is_none());
    assert_eq!(history.current_index, 3);
}

#[test]
fn test_push_truncating_saved_entry_stays_dirty() {
    let mut history = History::new();
    history.push("a".into(), 1, 1);
    history.mark_saved();
    history.undo();
    // This push drops the redo branch holding the saved entry: the saved
    // state is gone, so the new entry must read as unsaved.
    history.push("b".into(), 1, 1);
    assert!(history.is_dirty());
    assert_eq!(history.saved_index, history.len());

    // Saving again is what clears the flag.
    history.mark_saved();
    assert!(!history.is_dirty());
}

#[test]
fn test_clear_sole_snapshot_holds_text() {
    let mut history = History::new();
    history.push("before".into(), 6, 6);
    history.mark_saved();
    history.clear("after".into());

    assert_eq!(history.len(), 1);
    assert_eq!(history.current_index, 0);
    assert_eq!(history.saved_index, 0);
    assert!(history.redo().is_none());
    // The single remaining snapshot holds the new text.
    history.push("changed".into(), 0, 0);
    assert_eq!(history.undo().unwrap().text, "after");
}
