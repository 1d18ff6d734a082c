use idirfein::gallery_page::{message_for_key, GalleryKey, GalleryPageMessage};
use idirfein::notes_page::{for_ctrl_shortcut as notes_shortcut, NotesPageMessage};
use idirfein::passwords_page::{for_ctrl_shortcut as passwords_shortcut, PasswordsPageMessage};
use idirfein::tasks_page::{for_ctrl_shortcut as tasks_shortcut, TasksPageMessage};

#[test]
fn notes_shortcuts_ignore_case() {
    assert!(matches!(notes_shortcut('n'), Some(NotesPageMessage::StartCreatingNewNote)));
    assert!(matches!(notes_shortcut('N'), Some(NotesPageMessage::StartCreatingNewNote)));
    assert!(matches!(notes_shortcut('z'), Some(NotesPageMessage::Undo)));
    assert!(matches!(notes_shortcut('Y'), Some(NotesPageMessage::Redo)));
    assert!(matches!(notes_shortcut('k'), Some(NotesPageMessage::ToggleSpellCheckView)));
    assert!(notes_shortcut('q').is_none());
}

#[test]
fn tasks_and_passwords_shortcuts() {
    assert!(matches!(tasks_shortcut('l'), Some(TasksPageMessage::ToggleTaskViewType)));
    assert!(matches!(tasks_shortcut('S'), Some(TasksPageMessage::UpdateCurrentTask)));
    assert!(tasks_shortcut('z').is_none());
    assert!(matches!(passwords_shortcut('n'), Some(PasswordsPageMessage::SelectPassword(None))));
    assert!(matches!(passwords_shortcut('L'), Some(PasswordsPageMessage::LockAndDeselectDatabase)));
    assert!(passwords_shortcut('s').is_none());
}

#[test]
fn gallery_keys() {
    assert!(matches!(message_for_key(GalleryKey::ArrowRight), GalleryPageMessage::SelectNextImage));
    assert!(matches!(message_for_key(GalleryKey::ArrowLeft), GalleryPageMessage::SelectPreviousImage));
    assert!(matches!(message_for_key(GalleryKey::PageDown), GalleryPageMessage::PageDownKeyPressed));
    assert!(matches!(message_for_key(GalleryKey::Escape), GalleryPageMessage::EscapeKeyPressed));
}
