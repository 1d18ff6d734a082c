use std::path::PathBuf;

use idirfein::config::NotesPageConfig;
use idirfein::markdown_lists::enter_can_complete_list;
use idirfein::note_document::NoteEdit;
use idirfein::notes::Note;
use idirfein::notes_page::{NotesAction, NotesPage, NotesPageMessage};
use idirfein::path_order::set_extension;

fn page_in(folder: Option<&str>) -> NotesPage {
    let mut config = NotesPageConfig::default();
    config.default_folder = folder.map(|f| f.to_string());
    NotesPage::new(&config, Some("/site".to_string()))
}

fn note(path: &str, last_edited: u64) -> Note {
    Note { button_title: path.to_string(), file_path: path.to_string(), last_edited }
}

#[test]
fn md_extension_matches_std() {
    for p in ["/n/Shopping", "/n/a.txt", "n/", "", "/n/.hidden", "/n/x.tar.gz"] {
        let mut expected = PathBuf::from(p);
        expected.set_extension("md");
        assert_eq!(set_extension(p, "md"), expected.to_string_lossy().into_owned(), "{p:?}");
        let mut bare = PathBuf::from(p);
        bare.set_extension("");
        assert_eq!(set_extension(p, ""), bare.to_string_lossy().into_owned(), "{p:?}");
    }
}

#[test]
fn brackets_and_quotes_are_closed_as_they_are_typed() {
    let mut page = page_in(None);
    match page.update(NotesPageMessage::Edit(Some(NoteEdit::Insert('(')), None, 0, 0, None)) {
        NotesAction::ApplyEdits { edits, then_move_left } => {
            assert!(then_move_left);
            assert!(matches!(edits.as_slice(), [NoteEdit::Insert('('), NoteEdit::Insert(')')]));
        }
        _ => panic!("expected edits"),
    }
    assert!(page.note_is_dirty);
    assert_eq!(page.document.text_string(), "()\n");
    page.update(NotesPageMessage::SetAutocompleteBrackets(false));
    match page.update(NotesPageMessage::Edit(Some(NoteEdit::Insert('(')), None, 0, 1, None)) {
        NotesAction::ApplyEdits { edits, then_move_left } => {
            assert!(!then_move_left);
            assert!(matches!(edits.as_slice(), [NoteEdit::Insert('(')]));
        }
        _ => panic!("expected edits"),
    }
    assert_eq!(page.document.text_string(), "(()\n");
}

#[test]
fn an_edit_replaces_the_selection() {
    let mut page = page_in(None);
    page.update(NotesPageMessage::Edit(Some(NoteEdit::Paste("héllo wörld".to_string())), None, 0, 0, None));
    assert_eq!(page.document.text_string(), "héllo wörld\n");
    // "wörld" is bytes 7..13; typing over it leaves the cursor after the new character.
    page.update(NotesPageMessage::SetAutocompleteBrackets(false));
    page.update(NotesPageMessage::Edit(Some(NoteEdit::Insert('x')), None, 0, 0, Some((7, 6))));
    assert_eq!(page.document.text_string(), "héllo x\n");
}

#[test]
fn enter_continues_a_checklist() {
    let mut page = page_in(None);
    match page.update(NotesPageMessage::Edit(Some(NoteEdit::Enter), Some("  - [ ] milk".to_string()), 12, 0, None)) {
        NotesAction::ApplyEdits { edits, then_move_left } => {
            assert!(!then_move_left);
            assert!(matches!(
                edits.as_slice(),
                [
                    NoteEdit::Enter,
                    NoteEdit::Insert(' '),
                    NoteEdit::Insert(' '),
                    NoteEdit::Insert('-'),
                    NoteEdit::Insert(' '),
                    NoteEdit::Insert('['),
                    NoteEdit::Insert(' '),
                    NoteEdit::Insert(']'),
                    NoteEdit::Insert(' '),
                ]
            ));
        }
        _ => panic!("expected edits"),
    }
    assert_eq!(page.document.text_string(), "\n  - [ ] \n");
    assert!(matches!(page.update(NotesPageMessage::Edit(None, None, 0, 0, None)), NotesAction::PerformOnEditor));
}

#[test]
fn the_notes_list_is_newest_first() {
    let mut page = page_in(Some("/n"));
    page.update(NotesPageMessage::SetNotesList(vec![note("/n/a.md", 1), note("/n/b.md", 3), note("/n/c.md", 2)]));
    let order: Vec<u64> = page.notes_list.iter().map(|n| n.last_edited).collect();
    assert_eq!(order, vec![3, 2, 1]);
    match page.update(NotesPageMessage::LoadFolderAsNotesList) {
        NotesAction::ReadNotes(f) => assert_eq!(f, "/n"),
        _ => panic!("expected the notes to be read"),
    }
}

#[test]
fn a_new_note_is_written_into_the_folder() {
    let mut nowhere = page_in(None);
    match nowhere.update(NotesPageMessage::CreateNewNote) {
        NotesAction::ErrorToast(t) => assert_eq!(t, "No selected folder to save note into"),
        _ => panic!("expected a toast"),
    }
    let mut page = page_in(Some("/n"));
    page.update(NotesPageMessage::UpdateNewNoteTitleEntry("Shopping".to_string()));
    match page.update(NotesPageMessage::CreateNewNote) {
        NotesAction::StartNewNote { previous: None } => {}
        _ => panic!("expected a new note"),
    }
    assert_eq!(page.current_file.as_deref(), Some("/n/Shopping.md"));
    assert!(page.note_is_dirty);
    assert!(page.new_note_title_entry_content.is_empty());
    match page.update(NotesPageMessage::SaveNote) {
        NotesAction::ReloadThenWrite { file, text } => {
            assert_eq!(file, "/n/Shopping.md");
            assert_eq!(text, "");
        }
        _ => panic!("expected the note to be saved"),
    }
}

#[test]
fn opening_a_file_keeps_the_text_for_the_old_one() {
    let mut page = page_in(Some("/n"));
    page.update(NotesPageMessage::UpdateNewNoteTitleEntry("a".to_string()));
    page.update(NotesPageMessage::CreateNewNote);
    match page.update(NotesPageMessage::OpenFile("/n/b.md".to_string())) {
        NotesAction::SwitchFile { old, new, text } => {
            assert_eq!(old.as_deref(), Some("/n/a.md"));
            assert_eq!(new, "/n/b.md");
            assert_eq!(text, "");
        }
        _ => panic!("expected a switch"),
    }
    assert!(page.is_loading_note);
    match page.update(NotesPageMessage::SetTextEditorContent("hello\n".to_string())) {
        NotesAction::ShowText(t) => assert_eq!(t, "hello\n"),
        _ => panic!("expected the text to be shown"),
    }
    assert!(!page.is_loading_note);
    assert_eq!(page.document.text_string(), "hello\n");
}

#[test]
fn renaming_the_open_note_follows_it() {
    let mut page = page_in(Some("/n"));
    page.update(NotesPageMessage::OpenFile("/n/old.md".to_string()));
    page.update(NotesPageMessage::ShowMenuForNote(Some("/n/old.md".to_string())));
    page.update(NotesPageMessage::SetRenameNoteText("new".to_string()));
    match page.update(NotesPageMessage::RenameNote) {
        NotesAction::RenameFile { from, to } => {
            assert_eq!(from, "/n/old.md");
            assert_eq!(to, "/n/new.md");
        }
        _ => panic!("expected a rename"),
    }
    assert_eq!(page.current_file.as_deref(), Some("/n/new.md"));
    assert!(page.current_note_being_managed_path.is_none());
    assert!(matches!(
        page.update(NotesPageMessage::RenameNote),
        NotesAction::NextTwo(NotesPageMessage::SaveNote, NotesPageMessage::LoadFolderAsNotesList)
    ));
}

#[test]
fn deleting_the_open_note_closes_it() {
    let mut page = page_in(Some("/n"));
    page.update(NotesPageMessage::OpenFile("/n/x.md".to_string()));
    page.update(NotesPageMessage::ShowMenuForNote(Some("/n/x.md".to_string())));
    match page.update(NotesPageMessage::DeleteNote) {
        NotesAction::DeleteFile(p) => assert_eq!(p, "/n/x.md"),
        _ => panic!("expected a deletion"),
    }
    assert!(page.current_file.is_none());
    assert!(matches!(page.update(NotesPageMessage::DeleteNote), NotesAction::Nothing));
}

#[test]
fn archiving_then_unarchiving_a_note() {
    let mut page = page_in(Some("/n"));
    page.update(NotesPageMessage::ShowMenuForNote(Some("/n/Diary.md".to_string())));
    match page.update(NotesPageMessage::ArchiveNote) {
        NotesAction::WriteArchivedList(f) => assert_eq!(f, "/n"),
        _ => panic!("expected the list to be written"),
    }
    assert_eq!(page.archived_notes_list, vec!["diary".to_string()]);
    page.update(NotesPageMessage::ShowMenuForNote(Some("/n/Diary.md".to_string())));
    assert!(matches!(page.update(NotesPageMessage::UnarchiveNote), NotesAction::WriteArchivedList(_)));
    assert!(page.archived_notes_list.is_empty());
    assert!(page.current_note_being_managed_path.is_none());
}

#[test]
fn statistics_are_counted_from_the_note() {
    let mut page = page_in(None);
    page.update(NotesPageMessage::SetTextEditorContent("one two three\n".to_string()));
    assert!(matches!(
        page.update(NotesPageMessage::ToggleDocumentStatisticsView),
        NotesAction::Next(NotesPageMessage::CalculateNoteStatistics)
    ));
    match page.update(NotesPageMessage::CalculateNoteStatistics) {
        NotesAction::Next(NotesPageMessage::SetNoteStatistics(st)) => {
            assert_eq!(st.char_count, 14);
            assert_eq!(st.word_count, 3);
            assert_eq!(st.reading_time_in_mins, 0);
        }
        _ => panic!("expected statistics"),
    }
}

#[test]
fn undo_shows_the_earlier_text() {
    let mut page = page_in(None);
    assert!(page.document.apply_edit(&NoteEdit::Insert('a'), 0, None).is_some());
    match page.update(NotesPageMessage::Undo) {
        NotesAction::ShowText(t) => assert_eq!(t, ""),
        _ => panic!("expected the text"),
    }
    assert!(page.note_is_dirty);
}

#[test]
fn the_website_styles_file_opens_when_it_exists() {
    let mut page = page_in(Some("/n"));
    match page.update(NotesPageMessage::OpenWebsiteStylesFile) {
        NotesAction::CheckStylesFile(p) => assert_eq!(p, "/site/www/styles.css"),
        _ => panic!("expected a check"),
    }
    assert!(matches!(
        page.update(NotesPageMessage::WebsiteStylesFileChecked("/site/www/styles.css".to_string(), false)),
        NotesAction::Nothing
    ));
    page.update(NotesPageMessage::WebsiteStylesFileChecked("/site/www/styles.css".to_string(), true));
    assert_eq!(page.current_file.as_deref(), Some("/site/www/styles.css"));
    assert!(!page.show_markdown);
    let mut no_site = NotesPage::new(&NotesPageConfig::default(), None);
    match no_site.update(NotesPageMessage::OpenWebsiteStylesFile) {
        NotesAction::ErrorToast(t) => {
            assert_eq!(t, "Can't open styles file, folder for website files is not set")
        }
        _ => panic!("expected a toast"),
    }
}

#[test]
fn the_rename_view_clears_its_text_when_closed() {
    let mut page = page_in(None);
    assert!(matches!(page.update(NotesPageMessage::ToggleRenameNoteView), NotesAction::FocusRenameNote));
    page.update(NotesPageMessage::SetRenameNoteText("x".to_string()));
    assert!(matches!(page.update(NotesPageMessage::ToggleRenameNoteView), NotesAction::Nothing));
    assert!(page.rename_note_entry_text.is_empty());
}

#[test]
fn enter_completes_only_readable_list_lines() {
    assert!(enter_can_complete_list(None, 0));
    assert!(enter_can_complete_list(Some("plain"), 3));
    assert!(enter_can_complete_list(Some("- item"), 6));
    assert!(enter_can_complete_list(Some("12. item"), 8));
    assert!(enter_can_complete_list(Some("4294967295. "), 12));
    assert!(!enter_can_complete_list(Some("4294967295. item"), 16));
    assert!(!enter_can_complete_list(Some("99999999999. item"), 17));
    assert!(!enter_can_complete_list(Some("١٢. item"), 8));
}

#[test]
fn enter_after_a_pasted_list_item_continues_the_list_in_the_note() {
    let mut page = page_in(None);
    page.update(NotesPageMessage::Edit(Some(NoteEdit::Paste("1. a".to_string())), None, 0, 0, None));
    assert_eq!(page.document.text_string(), "1. a\n");
    assert!(enter_can_complete_list(Some("1. a"), 4));
    page.update(NotesPageMessage::Edit(Some(NoteEdit::Enter), Some("1. a".to_string()), 4, 4, None));
    assert_eq!(page.document.text_string(), "1. a\n2. \n");
}

#[test]
fn undo_and_redo_always_show_the_note() {
    let mut page = page_in(None);
    assert!(matches!(page.update(NotesPageMessage::Undo), NotesAction::ShowText(ref t) if t.is_empty()));
    page.update(NotesPageMessage::SetAutocompleteBrackets(false));
    page.update(NotesPageMessage::Edit(Some(NoteEdit::Insert('x')), None, 0, 0, None));
    assert!(matches!(page.update(NotesPageMessage::Undo), NotesAction::ShowText(ref t) if t.is_empty()));
    assert!(matches!(page.update(NotesPageMessage::Redo), NotesAction::ShowText(ref t) if t == "x\n"));
    assert!(matches!(page.update(NotesPageMessage::Redo), NotesAction::ShowText(ref t) if t == "x\n"));
}
