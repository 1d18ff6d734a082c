use idirfein::note_document::{NoteDocument, NoteEdit};

#[test]
fn empty_note_has_no_text() {
    let doc = NoteDocument::new_empty();
    assert_eq!(doc.text_string(), String::new());
}

#[test]
fn loaded_note_holds_its_text() {
    let doc = NoteDocument::from_text("héllo\nworld\n");
    assert_eq!(doc.text_string(), "héllo\nworld\n".to_string());
}

#[test]
fn typing_keeps_a_final_line_break() {
    let mut doc = NoteDocument::new_empty();
    assert!(doc.apply_edit(&NoteEdit::Insert('a'), 0, None).is_some());
    assert_eq!(doc.text_string(), "a\n".to_string());
    assert!(doc.apply_edit(&NoteEdit::Insert('b'), 1, None).is_some());
    assert_eq!(doc.text_string(), "ab\n".to_string());
}

#[test]
fn edits_follow_the_editor() {
    let mut doc = NoteDocument::from_text("hello\n");
    assert!(doc.apply_edit(&NoteEdit::Paste("big ".to_string()), 0, None).is_some());
    assert_eq!(doc.text_string(), "big hello\n".to_string());
    assert!(doc.apply_edit(&NoteEdit::Enter, 3, None).is_some());
    assert_eq!(doc.text_string(), "big\n hello\n".to_string());
    assert!(doc.apply_edit(&NoteEdit::Backspace, 4, None).is_some());
    assert_eq!(doc.text_string(), "big hello\n".to_string());
    assert!(doc.apply_edit(&NoteEdit::Delete, 3, None).is_some());
    assert_eq!(doc.text_string(), "bighello\n".to_string());
    assert!(doc.apply_edit(&NoteEdit::Backspace, 0, None).is_some());
    assert_eq!(doc.text_string(), "bighello\n".to_string());
}

#[test]
fn enter_on_the_final_line_break_adds_none() {
    let mut doc = NoteDocument::from_text("ab\n");
    assert!(doc.apply_edit(&NoteEdit::Enter, 2, None).is_some());
    assert_eq!(doc.text_string(), "ab\n".to_string());
    assert!(doc.apply_edit(&NoteEdit::Enter, 3, None).is_some());
    assert_eq!(doc.text_string(), "ab\n\n".to_string());
}

#[test]
fn a_selection_is_cut_before_the_edit() {
    let mut doc = NoteDocument::from_text("one two three\n");
    assert!(doc.apply_edit(&NoteEdit::Insert('2'), 9, Some((4, 3))).is_some());
    assert_eq!(doc.text_string(), "one 2 three\n".to_string());
    assert!(doc.apply_edit(&NoteEdit::Backspace, 0, Some((0, 4))).is_some());
    assert_eq!(doc.text_string(), "2 three\n".to_string());
    let mut wide = NoteDocument::from_text("añb\n");
    assert!(wide.apply_edit(&NoteEdit::Delete, 0, Some((1, 2))).is_some());
    assert_eq!(wide.text_string(), "ab\n".to_string());
}

#[test]
fn undo_and_redo_an_edit() {
    let mut doc = NoteDocument::from_text("hello\n");
    assert!(doc.apply_edit(&NoteEdit::Insert('!'), 5, None).is_some());
    assert_eq!(doc.text_string(), "hello!\n".to_string());
    assert_eq!(doc.undo(), Some("hello\n".to_string()));
    assert_eq!(doc.redo(), Some("hello!\n".to_string()));
}

#[test]
fn undo_does_not_remove_the_loaded_text() {
    let mut doc = NoteDocument::from_text("kept\n");
    let after = doc.undo();
    assert_eq!(doc.text_string(), "kept\n".to_string());
    if let Some(t) = after {
        assert_eq!(t, "kept\n".to_string());
    }
}

#[test]
fn the_cursor_moves_past_what_was_typed() {
    let mut doc = NoteDocument::new_empty();
    assert_eq!(doc.apply_edit(&NoteEdit::Paste("añb".to_string()), 0, None), Some(3));
    assert_eq!(doc.apply_edit(&NoteEdit::Backspace, 3, None), Some(2));
    assert_eq!(doc.text_string(), "añ\n");
    // A selection given in bytes puts the cursor on the character where it began.
    assert_eq!(doc.apply_edit(&NoteEdit::Delete, 0, Some((1, 2))), Some(1));
    assert_eq!(doc.text_string(), "a\n");
    assert!(doc.can_edit_at(2, None));
    assert!(!doc.can_edit_at(3, None));
    assert!(!doc.can_edit_at(0, Some((1, 5))));
}

#[test]
fn undo_and_redo_walk_the_history() {
    let mut doc = NoteDocument::new_empty();
    assert!(doc.apply_edit(&NoteEdit::Insert('a'), 0, None).is_some());
    assert!(doc.apply_edit(&NoteEdit::Insert('b'), 1, None).is_some());
    assert_eq!(doc.text_string(), "ab\n");
    assert_eq!(doc.undo(), Some("a\n".to_string()));
    assert_eq!(doc.undo(), Some(String::new()));
    assert_eq!(doc.undo(), Some(String::new()));
    assert_eq!(doc.redo(), Some("a\n".to_string()));
    assert!(doc.apply_edit(&NoteEdit::Insert('c'), 1, None).is_some());
    assert_eq!(doc.redo(), Some("ac\n".to_string()));
    assert_eq!(doc.undo(), Some("a\n".to_string()));
}
