//! The notes page: the notes folder and its notes, the note open in the editor and its undo
//! history, the typing aids of the editor, renaming, deleting and archiving notes, and what
//! has to be read, written or shown as a result. Paths are held as their text.

use vstd::prelude::*;
use vstd::multiset::Multiset;

use crate::config::NotesPageConfig;
use crate::markdown_lists::{
    closing_bracket, closing_char, edits_for_list_action, list_action_edits, list_action_fits,
    list_action_for, list_line_readable, parse_markdown_lists, ListEdit,
};
use crate::note_document::{edit_applicable, edits_applied, step_taken, NoteDocument, NoteEdit};
use crate::notes::{
    archive_file, archive_name, first_position, lemma_archive_then_unarchive, newest_first,
    note_statistics, sort_notes_newest_first, unarchive_file, Note, NoteStatistics,
};
use crate::path_order::{path_with_file_name, set_extension, with_extension, with_file_name};
use crate::paths::{join_path, path_joined};
use crate::settings::{clone_option, opt_text};
use crate::tasks_page::{same_optional_path, same_optional_path_exec};

verus! {

/// The state of the notes page.
pub struct NotesPage {
    /// The note in the editor, with its undo history.
    pub document: NoteDocument,
    /// Whether the list of notes is shown.
    pub show_sidebar: bool,
    /// Whether the rendered preview is shown.
    pub show_markdown: bool,
    /// Whether the editor is shown.
    pub show_editor: bool,
    /// The notes of the folder, most recently edited first.
    pub notes_list: Vec<Note>,
    /// The notes folder, if one was chosen.
    pub selected_folder: Option<String>,
    /// The file of the note in the editor, if any.
    pub current_file: Option<String>,
    /// The filter on the notes' titles.
    pub notes_list_filter: String,
    /// Whether a note is being read into the editor.
    pub is_loading_note: bool,
    /// Whether the extra tools are shown.
    pub show_extra_tools_menu: bool,
    /// Whether the statistics of the note are shown.
    pub show_document_statistics_view: bool,
    /// The statistics of the note, as last counted.
    pub current_note_statistics: NoteStatistics,
    /// Whether deleting a note asks first.
    pub confirm_before_delete_note: bool,
    /// Whether the note was edited since it was opened.
    pub note_is_dirty: bool,
    /// Whether Enter continues and ends markdown lists.
    pub autocomplete_lists: bool,
    /// The title being typed for a new note.
    pub new_note_title_entry_content: String,
    /// Whether a new note is being named.
    pub is_creating_new_note: bool,
    /// The note whose menu is open, if any.
    pub current_note_being_managed_path: Option<String>,
    /// Whether the rename view is shown.
    pub display_rename_view: bool,
    /// The new name being typed for a note.
    pub rename_note_entry_text: String,
    /// Whether the delete view is shown.
    pub display_delete_view: bool,
    /// The folder of the website the notes are exported to, if there is one.
    pub website_folder: Option<String>,
    /// Whether typing an opening bracket or quote adds the closing one.
    pub autocomplete_brackets_etc: bool,
    /// The misspelt words found in the note.
    pub spelling_corrections_list: Vec<String>,
    /// Whether the spelling view is shown.
    pub show_spell_check_view: bool,
    /// Whether the archive view is shown.
    pub display_archive_view: bool,
    /// The names of the archived notes.
    pub archived_notes_list: Vec<String>,
    /// Whether archived notes are listed.
    pub show_archived_notes: bool,
}

/// What the user, the editor or the files do on the notes page.
pub enum NotesPageMessage {
    /// An action in the editor: the edit it makes (`None` when it changes no text), the line
    /// the cursor is on (if any), the cursor's column, the character of the note at which the
    /// cursor stands, and the selection as a byte range of the note (if any).
    Edit(Option<NoteEdit>, Option<String>, usize, usize, Option<(usize, usize)>),
    LinkClicked(String),
    ToggleSidebar,
    ToggleMarkdown,
    ToggleEditor,
    SaveNote,
    OpenFilePicker,
    SetNotesFolder(Option<String>),
    SetNotesList(Vec<Note>),
    SetTextEditorContent(String),
    OpenFile(String),
    FilterNotesList(String),
    ToggleExtraToolsMenu,
    ExportPDF,
    ExportToWebsite,
    ToggleDocumentStatisticsView,
    CalculateNoteStatistics,
    SetNoteStatistics(NoteStatistics),
    LoadFolderAsNotesList,
    SetAutoCompleteLists(bool),
    SetConfirmBeforeDelete(bool),
    CreateNewNote,
    UpdateNewNoteTitleEntry(String),
    CancelCreateNewNote,
    StartCreatingNewNote,
    SetRenameNoteText(String),
    RenameNote,
    ToggleRenameNoteView,
    DeleteNote,
    ToggleDeleteNoteView,
    ShowMenuForNote(Option<String>),
    SetAutocompleteBrackets(bool),
    Undo,
    Redo,
    CalculateSpellingCorrectionsList,
    ToggleSpellCheckView,
    SetSpellingCorrectionsList(Vec<String>),
    GoToSpellingMistake(usize, String),
    ArchiveNote,
    UnarchiveNote,
    ToggleArchiveNoteView,
    ToggleShowArchivedNotes,
    LoadArchivedList,
    /// The archived list read from the notes folder.
    SetArchivedList(Vec<String>),
    OpenWebsiteStylesFile,
    /// The styles file of the website, and whether it exists.
    WebsiteStylesFileChecked(String, bool),
}

/// What has to happen after the notes page handled a message.
pub enum NotesAction {
    /// Nothing.
    Nothing,
    /// Handle this message next.
    Next(NotesPageMessage),
    /// Handle the first message, then the second.
    NextTwo(NotesPageMessage, NotesPageMessage),
    /// Make these edits in the editor, one after the other, each where the editor's cursor
    /// then is (`document` has them already); then move the cursor one character left when
    /// asked, and render the preview again.
    ApplyEdits { edits: Vec<NoteEdit>, then_move_left: bool },
    /// Perform the editor action as it is.
    PerformOnEditor,
    /// Open the link.
    OpenLink(String),
    /// Show this text in the editor, the cursor kept where it was, and render the preview.
    ShowText(String),
    /// Render the preview of the editor's text again.
    RefreshPreview,
    /// Handle `LoadFolderAsNotesList`, then write the text to the file (reporting a failure).
    ReloadThenWrite { file: String, text: String },
    /// Ask the user for a notes folder, then `SetNotesFolder`.
    PickFolder,
    /// Read the notes of the folder, then `SetNotesList`, then `LoadArchivedList`.
    ReadNotes(String),
    /// Write the text to the old file, if any, read the new file and `SetTextEditorContent`.
    SwitchFile { old: Option<String>, new: String, text: String },
    /// Write the text to the file, if any; clear the editor; then `SaveNote` and
    /// `LoadFolderAsNotesList`.
    StartNewNote { previous: Option<(String, String)> },
    /// Rename the file, then `SaveNote` and `LoadFolderAsNotesList`.
    RenameFile { from: String, to: String },
    /// Remove the file, clear the editor, `LoadFolderAsNotesList` and report the deletion.
    DeleteFile(String),
    /// Write the archived list into the folder.
    WriteArchivedList(String),
    /// Read the archived list of the folder, then `SetArchivedList`.
    ReadArchivedList(String),
    /// Find out whether the file exists, then `WebsiteStylesFileChecked`.
    CheckStylesFile(String),
    /// Export the text of the note in the file (if any) as a PDF, and report the outcome.
    ExportPdf { text: String, file: Option<String> },
    /// Export the text of the note in the file (if any) to the website, and report it.
    ExportWebsite { text: String, file: Option<String>, website: Option<String> },
    /// Look for misspelt words in the text, then `SetSpellingCorrectionsList`.
    CheckSpelling(String),
    /// Select the misspelt word at this position in the editor.
    SelectInEditor(usize),
    /// Put the cursor in the new note title field.
    FocusNewNoteTitle,
    /// Put the cursor in the rename field.
    FocusRenameNote,
    /// Show a bad toast with the text.
    ErrorToast(String),
}

/// The note edit for a key press of the list completion.
pub open spec fn note_edit_of(e: ListEdit) -> NoteEdit {
    match e {
        ListEdit::Insert(c) => NoteEdit::Insert(c),
        ListEdit::Enter => NoteEdit::Enter,
        ListEdit::Backspace => NoteEdit::Backspace,
        ListEdit::Delete => NoteEdit::Delete,
    }
}

/// The edits an editor edit becomes, and whether the cursor then moves back one character:
/// an opening bracket or quote is closed (when that is asked for), Enter continues or ends a
/// markdown list (when that is asked for), and any other edit is made as it is.
pub open spec fn edit_plan(p: NotesPage, edit: NoteEdit, line: Option<String>, x: usize) -> (
    Seq<NoteEdit>,
    bool,
) {
    let closing = match edit {
        NoteEdit::Insert(c) => if p.autocomplete_brackets_etc {
            closing_char(c)
        } else {
            None
        },
        _ => None,
    };
    match closing {
        Some(d) => (seq![edit, NoteEdit::Insert(d)], true),
        None => if p.autocomplete_lists && edit is Enter {
            (
                list_action_edits(list_action_for(opt_text(line), x)).map_values(
                    |e: ListEdit| note_edit_of(e),
                ),
                false,
            )
        } else {
            (seq![edit], false)
        },
    }
}

/// The page can take `m`: a line that Enter continues as a list can be read, the note can be
/// counted, and a note unarchived is in the archived list.
pub open spec fn notes_can_take(p: NotesPage, m: NotesPageMessage) -> bool {
    &&& match m {
        NotesPageMessage::Edit(Some(e), l, x, c, sel) => {
            &&& (e is Enter && p.autocomplete_lists) ==> (list_line_readable(opt_text(l))
                && list_action_fits(list_action_for(opt_text(l), x)))
            &&& edit_applicable(p.document.text(), c as int, sel)
        },
        _ => true,
    }
    &&& m is CalculateNoteStatistics ==> p.document.text().len() < u64::MAX
    &&& (m is UnarchiveNote && p.selected_folder is Some) ==> match p.current_note_being_managed_path {
        Some(n) => first_position(p.archived_notes_list@, archive_name(n@)) is Some,
        None => true,
    }
}

/// Where a new note titled `title` in `folder` is written.
pub open spec fn new_note_path(folder: Seq<char>, title: Seq<char>) -> Seq<char> {
    with_extension(path_joined(folder, title), "md"@)
}

/// Where the note at `path` goes when renamed `name`.
pub open spec fn renamed_note_path(path: Seq<char>, name: Seq<char>) -> Seq<char> {
    with_extension(with_file_name(path, name), "md"@)
}

/// The styles file of the website in `folder`.
pub open spec fn styles_file(folder: Seq<char>) -> Seq<char> {
    path_joined(path_joined(folder, "www"@), "styles.css"@)
}

/// Which part of the page a message concerns: 1 the files, 2 the editor, 0 the fields and
/// views.
pub open spec fn notes_message_group(m: NotesPageMessage) -> u8 {
    match m {
        NotesPageMessage::SaveNote | NotesPageMessage::OpenFilePicker
        | NotesPageMessage::SetNotesFolder(_) | NotesPageMessage::LoadFolderAsNotesList
        | NotesPageMessage::SetNotesList(_) | NotesPageMessage::OpenFile(_)
        | NotesPageMessage::SetTextEditorContent(_) | NotesPageMessage::CreateNewNote
        | NotesPageMessage::RenameNote | NotesPageMessage::DeleteNote
        | NotesPageMessage::ArchiveNote | NotesPageMessage::UnarchiveNote
        | NotesPageMessage::LoadArchivedList | NotesPageMessage::SetArchivedList(_)
        | NotesPageMessage::OpenWebsiteStylesFile
        | NotesPageMessage::WebsiteStylesFileChecked(_, _) | NotesPageMessage::ExportPDF
        | NotesPageMessage::ExportToWebsite => 1,
        NotesPageMessage::Edit(_, _, _, _, _) | NotesPageMessage::LinkClicked(_)
        | NotesPageMessage::ToggleMarkdown | NotesPageMessage::ToggleDocumentStatisticsView
        | NotesPageMessage::CalculateNoteStatistics | NotesPageMessage::SetNoteStatistics(_)
        | NotesPageMessage::CalculateSpellingCorrectionsList
        | NotesPageMessage::SetSpellingCorrectionsList(_)
        | NotesPageMessage::GoToSpellingMistake(_, _) | NotesPageMessage::Undo
        | NotesPageMessage::Redo => 2,
        _ => 0,
    }
}

/// What switching the editor to the file `new` asks for: the text goes to the file it
/// came from, and the new file is read.
pub open spec fn switches_to(before: NotesPage, new: Seq<char>, a: NotesAction) -> bool {
    a matches NotesAction::SwitchFile { old, new: n, text } && old == before.current_file && n@
        == new && text@ == before.document.text()
}

/// How handling a message `m` about the notes' files takes the page from `before` to
/// `after` and what it asks for (`a`).
pub open spec fn files_step(
    before: NotesPage,
    after: NotesPage,
    m: NotesPageMessage,
    a: NotesAction,
) -> bool {
    let no_folder = "No selected folder to save note into"@;
    match m {
        NotesPageMessage::SaveNote => after == before && match before.current_file {
            Some(f) => if before.note_is_dirty {
                a matches NotesAction::ReloadThenWrite { file, text } && file@ == f@ && text@
                    == before.document.text()
            } else {
                a is Nothing
            },
            None => a is Nothing,
        },
        NotesPageMessage::OpenFilePicker => after == before && a is PickFolder,
        NotesPageMessage::SetNotesFolder(f) => after == NotesPage { selected_folder: f, ..before }
            && a matches NotesAction::Next(NotesPageMessage::LoadFolderAsNotesList),
        NotesPageMessage::LoadFolderAsNotesList => after == before && match before.selected_folder {
            Some(f) => a matches NotesAction::ReadNotes(g) && g@ == f@,
            None => a is Nothing,
        },
        NotesPageMessage::SetNotesList(list) => {
            &&& after == NotesPage { notes_list: after.notes_list, ..before }
            &&& after.notes_list@.to_multiset() == list@.to_multiset()
            &&& newest_first(after.notes_list@)
            &&& a is Nothing
        },
        NotesPageMessage::OpenFile(path) => {
            &&& after == NotesPage {
                is_loading_note: true,
                current_file: Some(path),
                spelling_corrections_list: after.spelling_corrections_list,
                ..before
            }
            &&& after.spelling_corrections_list@.len() == 0
            &&& switches_to(before, path@, a)
        },
        NotesPageMessage::SetTextEditorContent(content) => {
            &&& after == NotesPage { document: after.document, is_loading_note: false, ..before }
            &&& after.document.text() == content@
            &&& after.document.attached()
            &&& after.document.settled()
            &&& after.document.undo_history().len() == 0
            &&& after.document.redo_history().len() == 0
            &&& a == NotesAction::ShowText(content)
        },
        NotesPageMessage::CreateNewNote => match before.selected_folder {
            Some(folder) => {
                &&& after == NotesPage {
                    document: after.document,
                    note_is_dirty: true,
                    current_file: after.current_file,
                    new_note_title_entry_content: after.new_note_title_entry_content,
                    is_creating_new_note: false,
                    ..before
                }
                &&& after.document.text().len() == 0
                &&& after.current_file matches Some(f) && f@ == new_note_path(
                    folder@,
                    before.new_note_title_entry_content@,
                )
                &&& after.new_note_title_entry_content@.len() == 0
                &&& a matches NotesAction::StartNewNote { previous } && match before.current_file {
                    Some(c) => previous matches Some((f, t)) && f@ == c@ && t@
                        == before.document.text(),
                    None => previous is None,
                }
            },
            None => after == before && (a matches NotesAction::ErrorToast(t) && t@ == no_folder),
        },
        NotesPageMessage::RenameNote => match before.selected_folder {
            None => after == before && (a matches NotesAction::ErrorToast(t) && t@ == no_folder),
            Some(_) => match before.current_note_being_managed_path {
                None => after == before && a matches NotesAction::NextTwo(
                    NotesPageMessage::SaveNote,
                    NotesPageMessage::LoadFolderAsNotesList,
                ),
                Some(p) => {
                    let renamed = renamed_note_path(p@, before.rename_note_entry_text@);
                    &&& after == NotesPage {
                        current_file: after.current_file,
                        rename_note_entry_text: after.rename_note_entry_text,
                        display_rename_view: false,
                        display_delete_view: false,
                        current_note_being_managed_path: None,
                        ..before
                    }
                    &&& after.rename_note_entry_text@.len() == 0
                    &&& if same_optional_path(
                        before.current_file,
                        before.current_note_being_managed_path,
                    ) {
                        after.current_file matches Some(c) && c@ == renamed
                    } else {
                        after.current_file == before.current_file
                    }
                    &&& a matches NotesAction::RenameFile { from, to } && from@ == p@ && to@
                        == renamed
                },
            },
        },
        NotesPageMessage::DeleteNote => match before.current_note_being_managed_path {
            Some(p) => {
                &&& after == NotesPage {
                    document: after.document,
                    current_file: if same_optional_path(
                        before.current_file,
                        before.current_note_being_managed_path,
                    ) {
                        None
                    } else {
                        before.current_file
                    },
                    current_note_being_managed_path: None,
                    ..before
                }
                &&& after.document.text().len() == 0
                &&& a matches NotesAction::DeleteFile(q) && q@ == p@
            },
            None => after == before && a is Nothing,
        },
        NotesPageMessage::ArchiveNote => match (
            before.selected_folder,
            before.current_note_being_managed_path,
        ) {
            (Some(folder), Some(p)) => {
                &&& after == NotesPage {
                    archived_notes_list: after.archived_notes_list,
                    current_note_being_managed_path: None,
                    display_archive_view: false,
                    ..before
                }
                &&& after.archived_notes_list@.len() == before.archived_notes_list@.len() + 1
                &&& after.archived_notes_list@.take(before.archived_notes_list@.len() as int)
                    == before.archived_notes_list@
                &&& after.archived_notes_list@.last()@ == archive_name(p@)
                &&& a matches NotesAction::WriteArchivedList(f) && f@ == folder@
            },
            _ => after == NotesPage {
                current_note_being_managed_path: None,
                display_archive_view: false,
                ..before
            } && a is Nothing,
        },
        NotesPageMessage::UnarchiveNote => match (
            before.selected_folder,
            before.current_note_being_managed_path,
        ) {
            (Some(folder), Some(p)) => {
                &&& after == NotesPage {
                    archived_notes_list: after.archived_notes_list,
                    current_note_being_managed_path: None,
                    display_archive_view: false,
                    ..before
                }
                &&& match first_position(before.archived_notes_list@, archive_name(p@)) {
                    Some(i) => after.archived_notes_list@ == before.archived_notes_list@.remove(i)
                        && (a matches NotesAction::WriteArchivedList(f) && f@ == folder@),
                    None => after.archived_notes_list@ == before.archived_notes_list@ && a is Nothing,
                }
            },
            _ => after == NotesPage {
                current_note_being_managed_path: None,
                display_archive_view: false,
                ..before
            } && a is Nothing,
        },
        NotesPageMessage::LoadArchivedList => match before.selected_folder {
            Some(f) => after == before && (a matches NotesAction::ReadArchivedList(g) && g@ == f@),
            None => after == NotesPage { archived_notes_list: after.archived_notes_list, ..before }
                && after.archived_notes_list@.len() == 0 && a is Nothing,
        },
        NotesPageMessage::SetArchivedList(l) => after == NotesPage {
            archived_notes_list: l,
            ..before
        } && a is Nothing,
        NotesPageMessage::OpenWebsiteStylesFile => after == before && match before.website_folder {
            Some(w) => a matches NotesAction::CheckStylesFile(c) && c@ == styles_file(w@),
            None => a matches NotesAction::ErrorToast(t) && t@
                == "Can't open styles file, folder for website files is not set"@,
        },
        NotesPageMessage::WebsiteStylesFileChecked(css, exists) => if exists {
            &&& after == NotesPage {
                is_loading_note: true,
                current_file: Some(css),
                spelling_corrections_list: after.spelling_corrections_list,
                show_markdown: false,
                ..before
            }
            &&& after.spelling_corrections_list@.len() == 0
            &&& switches_to(before, css@, a)
        } else {
            after == before && a is Nothing
        },
        NotesPageMessage::ExportPDF => after == before && (a matches NotesAction::ExportPdf {
            text,
            file,
        } && text@ == before.document.text() && opt_text(file) == opt_text(before.current_file)),
        NotesPageMessage::ExportToWebsite => after == before && (a matches NotesAction::ExportWebsite {
            text,
            file,
            website,
        } && text@ == before.document.text() && opt_text(file) == opt_text(before.current_file)
            && opt_text(website) == opt_text(before.website_folder)),
        _ => true,
    }
}

/// What undoing or redoing asks for: when the document gave its new text back, the note is
/// edited and the editor shows that text; otherwise nothing is shown.
pub open spec fn history_step(before: NotesPage, after: NotesPage, a: NotesAction) -> bool {
    match a {
        NotesAction::ShowText(t) => after == NotesPage {
            document: after.document,
            note_is_dirty: true,
            ..before
        } && t@ == after.document.text(),
        NotesAction::Nothing => after == NotesPage { document: after.document, ..before },
        _ => false,
    }
}

/// What an undo (`undo`) or a redo did to the note, `done` telling whether it succeeded: a
/// failed one left the text; on an attached note whose edits are all recorded it succeeded
/// and the note stayed attached; and on a note whose edits are all recorded, a successful one
/// took a step off the undo (or redo) history, as `step_taken` says.
pub open spec fn history_moved(before: NoteDocument, after: NoteDocument, done: bool, undo: bool) -> bool {
    &&& !done ==> after.text() == before.text()
    &&& before.settled() ==> after.settled()
    &&& before.settled() && before.attached() ==> done && after.attached()
    &&& (before.settled() && done) ==> if undo {
        step_taken(
            before.undo_history(),
            before.redo_history(),
            before.text(),
            after.undo_history(),
            after.redo_history(),
            after.text(),
        )
    } else {
        step_taken(
            before.redo_history(),
            before.undo_history(),
            before.text(),
            after.redo_history(),
            after.undo_history(),
            after.text(),
        )
    }
}

/// How handling a message `m` about the editor takes the page from `before` to `after` and
/// what it asks for (`a`).
pub open spec fn editor_step(
    before: NotesPage,
    after: NotesPage,
    m: NotesPageMessage,
    a: NotesAction,
) -> bool {
    match m {
        NotesPageMessage::Edit(o, line, x, c, sel) => match o {
            Some(e) => {
                let plan = edit_plan(before, e, line, x);
                &&& after == NotesPage { note_is_dirty: true, document: after.document, ..before }
                &&& before.document.attached() ==> after.document.text() == edits_applied(
                    before.document.text(),
                    plan.0,
                    c as int,
                    sel,
                ).0
                &&& after.document.attached() == before.document.attached()
                &&& before.document.attached() && before.document.settled()
                    ==> after.document.settled()
                &&& a matches NotesAction::ApplyEdits { edits, then_move_left } && (
                edits@, then_move_left) == plan
            },
            None => after == before && a is PerformOnEditor,
        },
        NotesPageMessage::LinkClicked(url) => after == before && a == NotesAction::OpenLink(url),
        NotesPageMessage::ToggleMarkdown => after == NotesPage {
            show_markdown: !before.show_markdown,
            ..before
        } && if after.show_markdown {
            a is RefreshPreview
        } else {
            a is Nothing
        },
        NotesPageMessage::ToggleDocumentStatisticsView => after == NotesPage {
            show_document_statistics_view: !before.show_document_statistics_view,
            ..before
        } && if after.show_document_statistics_view {
            a matches NotesAction::Next(NotesPageMessage::CalculateNoteStatistics)
        } else {
            a is Nothing
        },
        NotesPageMessage::CalculateNoteStatistics => after == before && (a matches NotesAction::Next(
            NotesPageMessage::SetNoteStatistics(st),
        ) && st.char_count == before.document.text().len() && st.word_count == crate::notes::count_char(
            before.document.text(),
            ' ',
        ) + 1 && st.reading_time_in_mins == st.word_count / 200),
        NotesPageMessage::SetNoteStatistics(st) => after == NotesPage {
            current_note_statistics: st,
            ..before
        } && a is Nothing,
        NotesPageMessage::CalculateSpellingCorrectionsList => after == before && (
        a matches NotesAction::CheckSpelling(t) && t@ == before.document.text()),
        NotesPageMessage::SetSpellingCorrectionsList(l) => after == NotesPage {
            spelling_corrections_list: l,
            ..before
        } && a is Nothing,
        NotesPageMessage::GoToSpellingMistake(i, _) => after == before && a
            == NotesAction::SelectInEditor(i),
        NotesPageMessage::Undo => history_step(before, after, a) && history_moved(
            before.document,
            after.document,
            a is ShowText,
            true,
        ),
        NotesPageMessage::Redo => history_step(before, after, a) && history_moved(
            before.document,
            after.document,
            a is ShowText,
            false,
        ),
        _ => true,
    }
}

/// How handling a message `m` about the page's fields and views takes the page from
/// `before` to `after` and what it asks for (`a`).
pub open spec fn fields_step(
    before: NotesPage,
    after: NotesPage,
    m: NotesPageMessage,
    a: NotesAction,
) -> bool {
    match m {
        NotesPageMessage::ToggleSidebar => after == NotesPage {
            show_sidebar: !before.show_sidebar,
            ..before
        } && a is Nothing,
        NotesPageMessage::ToggleEditor => after == NotesPage {
            show_editor: !before.show_editor,
            ..before
        } && a is Nothing,
        NotesPageMessage::FilterNotesList(t) => after == NotesPage {
            notes_list_filter: t,
            ..before
        } && a is Nothing,
        NotesPageMessage::ToggleExtraToolsMenu => after == NotesPage {
            show_extra_tools_menu: !before.show_extra_tools_menu,
            ..before
        } && a is Nothing,
        NotesPageMessage::SetAutoCompleteLists(b) => after == NotesPage {
            autocomplete_lists: b,
            ..before
        } && a is Nothing,
        NotesPageMessage::SetConfirmBeforeDelete(b) => after == NotesPage {
            confirm_before_delete_note: b,
            ..before
        } && a is Nothing,
        NotesPageMessage::UpdateNewNoteTitleEntry(t) => after == NotesPage {
            new_note_title_entry_content: t,
            ..before
        } && a is Nothing,
        NotesPageMessage::CancelCreateNewNote => after == NotesPage {
            is_creating_new_note: false,
            new_note_title_entry_content: after.new_note_title_entry_content,
            ..before
        } && after.new_note_title_entry_content@.len() == 0 && a is Nothing,
        NotesPageMessage::StartCreatingNewNote => after == NotesPage {
            is_creating_new_note: true,
            ..before
        } && a is FocusNewNoteTitle,
        NotesPageMessage::SetRenameNoteText(t) => after == NotesPage {
            rename_note_entry_text: t,
            ..before
        } && a is Nothing,
        NotesPageMessage::ToggleRenameNoteView => if before.display_rename_view {
            after == NotesPage {
                display_rename_view: false,
                rename_note_entry_text: after.rename_note_entry_text,
                ..before
            } && after.rename_note_entry_text@.len() == 0 && a is Nothing
        } else {
            after == NotesPage { display_rename_view: true, ..before } && a is FocusRenameNote
        },
        NotesPageMessage::ToggleDeleteNoteView => after == NotesPage {
            display_delete_view: !before.display_delete_view,
            ..before
        } && a is Nothing,
        NotesPageMessage::ShowMenuForNote(o) => after == NotesPage {
            display_rename_view: false,
            display_delete_view: false,
            current_note_being_managed_path: o,
            ..before
        } && a is Nothing,
        NotesPageMessage::SetAutocompleteBrackets(b) => after == NotesPage {
            autocomplete_brackets_etc: b,
            ..before
        } && a is Nothing,
        NotesPageMessage::ToggleSpellCheckView => after == NotesPage {
            show_spell_check_view: !before.show_spell_check_view,
            ..before
        } && a is Nothing,
        NotesPageMessage::ToggleArchiveNoteView => after == NotesPage {
            display_archive_view: !before.display_archive_view,
            ..before
        } && a is Nothing,
        NotesPageMessage::ToggleShowArchivedNotes => after == NotesPage {
            show_archived_notes: !before.show_archived_notes,
            ..before
        } && a is Nothing,
        _ => true,
    }
}

/// How handling `m` takes the page from `before` to `after` and what it asks for (`a`).
pub open spec fn notes_step(
    before: NotesPage,
    after: NotesPage,
    m: NotesPageMessage,
    a: NotesAction,
) -> bool {
    let g = notes_message_group(m);
    if g == 1 {
        files_step(before, after, m, a)
    } else if g == 2 {
        editor_step(before, after, m, a)
    } else {
        fields_step(before, after, m, a)
    }
}

fn notes_group_of(m: &NotesPageMessage) -> (g: u8)
    ensures
        g == notes_message_group(*m),
{
    match m {
        NotesPageMessage::SaveNote | NotesPageMessage::OpenFilePicker
        | NotesPageMessage::SetNotesFolder(_) | NotesPageMessage::LoadFolderAsNotesList
        | NotesPageMessage::SetNotesList(_) | NotesPageMessage::OpenFile(_)
        | NotesPageMessage::SetTextEditorContent(_) | NotesPageMessage::CreateNewNote
        | NotesPageMessage::RenameNote | NotesPageMessage::DeleteNote
        | NotesPageMessage::ArchiveNote | NotesPageMessage::UnarchiveNote
        | NotesPageMessage::LoadArchivedList | NotesPageMessage::SetArchivedList(_)
        | NotesPageMessage::OpenWebsiteStylesFile
        | NotesPageMessage::WebsiteStylesFileChecked(_, _) | NotesPageMessage::ExportPDF
        | NotesPageMessage::ExportToWebsite => 1,
        NotesPageMessage::Edit(_, _, _, _, _) | NotesPageMessage::LinkClicked(_)
        | NotesPageMessage::ToggleMarkdown | NotesPageMessage::ToggleDocumentStatisticsView
        | NotesPageMessage::CalculateNoteStatistics | NotesPageMessage::SetNoteStatistics(_)
        | NotesPageMessage::CalculateSpellingCorrectionsList
        | NotesPageMessage::SetSpellingCorrectionsList(_)
        | NotesPageMessage::GoToSpellingMistake(_, _) | NotesPageMessage::Undo
        | NotesPageMessage::Redo => 2,
        _ => 0,
    }
}


fn note_edits_of(v: &Vec<ListEdit>) -> (r: Vec<NoteEdit>)
    ensures
        r@ == v@.map_values(|e: ListEdit| note_edit_of(e)),
{
    let mut r: Vec<NoteEdit> = Vec::new();
    let mut i: usize = 0;
    while i < v.len()
        invariant
            i <= v.len(),
            r@ == v@.take(i as int).map_values(|e: ListEdit| note_edit_of(e)),
        decreases v.len() - i,
    {
        let e = match v[i] {
            ListEdit::Insert(c) => NoteEdit::Insert(c),
            ListEdit::Enter => NoteEdit::Enter,
            ListEdit::Backspace => NoteEdit::Backspace,
            ListEdit::Delete => NoteEdit::Delete,
        };
        r.push(e);
        assert(v@.take(i + 1).map_values(|e: ListEdit| note_edit_of(e)) =~= v@.take(
            i as int,
        ).map_values(|e: ListEdit| note_edit_of(e)).push(note_edit_of(v@[i as int])));
        i += 1;
    }
    assert(v@.take(v.len() as int) =~= v@);
    r
}

impl NotesPage {
    /// The page with the settings `config` and the website folder `website_folder`: the
    /// chosen folder (if any), views and typing aids, an empty note, nothing listed or open.
    pub fn new(config: &NotesPageConfig, website_folder: Option<String>) -> (r: NotesPage)
        ensures
            opt_text(r.selected_folder) == opt_text(config.default_folder),
            r.website_folder == website_folder,
            r.show_sidebar == config.show_sidebar_on_start,
            r.show_markdown == config.show_markdown_on_start,
            r.show_editor == config.show_editor_on_start,
            r.confirm_before_delete_note == config.confirm_before_delete,
            r.autocomplete_lists == config.autocomplete_lists,
            r.autocomplete_brackets_etc == config.autocomplete_brackets_etc,
            r.document.text().len() == 0,
            r.document.attached() && r.document.settled(),
            r.document.undo_history().len() == 0 && r.document.redo_history().len() == 0,
            r.current_file is None && r.current_note_being_managed_path is None,
            r.notes_list@.len() == 0 && r.archived_notes_list@.len() == 0,
            r.spelling_corrections_list@.len() == 0,
            r.current_note_statistics == (NoteStatistics {
                char_count: 0,
                word_count: 0,
                reading_time_in_mins: 0,
            }),
            !r.is_loading_note && !r.show_extra_tools_menu && !r.show_document_statistics_view,
            !r.note_is_dirty && !r.is_creating_new_note && !r.display_rename_view,
            !r.display_delete_view && !r.show_spell_check_view && !r.display_archive_view,
            !r.show_archived_notes,
            r.notes_list_filter@.len() == 0 && r.new_note_title_entry_content@.len() == 0,
            r.rename_note_entry_text@.len() == 0,
    {
        NotesPage {
            document: NoteDocument::new_empty(),
            show_sidebar: config.show_sidebar_on_start,
            show_markdown: config.show_markdown_on_start,
            show_editor: config.show_editor_on_start,
            notes_list: Vec::new(),
            selected_folder: clone_option(&config.default_folder),
            current_file: None,
            notes_list_filter: String::new(),
            is_loading_note: false,
            show_extra_tools_menu: false,
            show_document_statistics_view: false,
            current_note_statistics: NoteStatistics {
                char_count: 0,
                word_count: 0,
                reading_time_in_mins: 0,
            },
            confirm_before_delete_note: config.confirm_before_delete,
            note_is_dirty: false,
            autocomplete_lists: config.autocomplete_lists,
            new_note_title_entry_content: String::new(),
            is_creating_new_note: false,
            current_note_being_managed_path: None,
            display_rename_view: false,
            rename_note_entry_text: String::new(),
            display_delete_view: false,
            website_folder,
            autocomplete_brackets_etc: config.autocomplete_brackets_etc,
            spelling_corrections_list: Vec::new(),
            show_spell_check_view: false,
            display_archive_view: false,
            archived_notes_list: Vec::new(),
            show_archived_notes: false,
        }
    }

    /// The message the page handles when it opens: list the notes of the folder.
    pub fn opening_task() -> (m: NotesPageMessage)
        ensures
            m is LoadFolderAsNotesList,
    {
        NotesPageMessage::LoadFolderAsNotesList
    }

    /// The message the page handles before it closes: save the note.
    pub fn closing_task() -> (m: NotesPageMessage)
        ensures
            m is SaveNote,
    {
        NotesPageMessage::SaveNote
    }

    /// Handles `message` and says what has to happen next (see `notes_step`).
    pub fn update(&mut self, message: NotesPageMessage) -> (a: NotesAction)
        requires
            notes_can_take(*old(self), message),
        ensures
            notes_step(*old(self), *final(self), message, a),
    {
        let g = notes_group_of(&message);
        if g == 1 {
            self.update_files(message)
        } else if g == 2 {
            self.update_editor(message)
        } else {
            self.update_fields(message)
        }
    }

    fn switch_to(&mut self, new: String) -> (a: NotesAction)
        ensures
            switches_to(*old(self), new@, a),
            *final(self) == (NotesPage {
                is_loading_note: true,
                current_file: Some(new),
                spelling_corrections_list: final(self).spelling_corrections_list,
                ..*old(self)
            }),
            final(self).spelling_corrections_list@.len() == 0,
    {
        let text = self.document.text_string();
        let old = self.current_file.take();
        let n = new.clone();
        self.is_loading_note = true;
        self.current_file = Some(new);
        self.spelling_corrections_list = Vec::new();
        NotesAction::SwitchFile { old, new: n, text }
    }

    #[verifier::rlimit(100)]
    #[verifier::spinoff_prover]
    fn update_files(&mut self, message: NotesPageMessage) -> (a: NotesAction)
        requires
            notes_message_group(message) == 1,
        ensures
            files_step(*old(self), *final(self), message, a),
    {
        match &message {
            NotesPageMessage::SaveNote
            | NotesPageMessage::OpenFilePicker
            | NotesPageMessage::SetNotesFolder(..)
            | NotesPageMessage::LoadFolderAsNotesList
            | NotesPageMessage::SetNotesList(..) => self.update_folder(message),
            NotesPageMessage::OpenFile(..)
            | NotesPageMessage::SetTextEditorContent(..)
            | NotesPageMessage::CreateNewNote
            | NotesPageMessage::RenameNote
            | NotesPageMessage::DeleteNote => self.update_open_note(message),
            NotesPageMessage::ArchiveNote
            | NotesPageMessage::UnarchiveNote
            | NotesPageMessage::LoadArchivedList
            | NotesPageMessage::SetArchivedList(..)
            | NotesPageMessage::OpenWebsiteStylesFile => self.update_archive(message),
            _ => self.update_exports(message),
        }
    }

    #[verifier::rlimit(100)]
    #[verifier::spinoff_prover]
    fn update_folder(&mut self, message: NotesPageMessage) -> (a: NotesAction)
        requires
            notes_message_group(message) == 1,
            message is SaveNote
                || message is OpenFilePicker
                || message is SetNotesFolder
                || message is LoadFolderAsNotesList
                || message is SetNotesList,
        ensures
            files_step(*old(self), *final(self), message, a),
    {
        match message {
            NotesPageMessage::SaveNote => match &self.current_file {
                Some(f) => if self.note_is_dirty {
                    NotesAction::ReloadThenWrite { file: f.clone(), text: self.document.text_string() }
                } else {
                    NotesAction::Nothing
                },
                None => NotesAction::Nothing,
            },
            NotesPageMessage::OpenFilePicker => NotesAction::PickFolder,
            NotesPageMessage::SetNotesFolder(f) => {
                self.selected_folder = f;
                NotesAction::Next(NotesPageMessage::LoadFolderAsNotesList)
            },
            NotesPageMessage::LoadFolderAsNotesList => match &self.selected_folder {
                Some(f) => NotesAction::ReadNotes(f.clone()),
                None => NotesAction::Nothing,
            },
            NotesPageMessage::SetNotesList(list) => {
                self.notes_list = sort_notes_newest_first(list);
                NotesAction::Nothing
            },
            _ => NotesAction::Nothing,
        }
    }

    #[verifier::rlimit(100)]
    #[verifier::spinoff_prover]
    fn update_open_note(&mut self, message: NotesPageMessage) -> (a: NotesAction)
        requires
            notes_message_group(message) == 1,
            message is OpenFile
                || message is SetTextEditorContent
                || message is CreateNewNote
                || message is RenameNote
                || message is DeleteNote,
        ensures
            files_step(*old(self), *final(self), message, a),
    {
        match message {
            NotesPageMessage::OpenFile(path) => self.switch_to(path),
            NotesPageMessage::SetTextEditorContent(content) => {
                self.is_loading_note = false;
                self.document = NoteDocument::from_text(content.as_str());
                NotesAction::ShowText(content)
            },
            NotesPageMessage::CreateNewNote => {
                let path = match &self.selected_folder {
                    Some(folder) => {
                        let joined = join_path(
                            folder.as_str(),
                            self.new_note_title_entry_content.as_str(),
                        );
                        set_extension(joined.as_str(), "md")
                    },
                    None => {
                        return NotesAction::ErrorToast(
                            "No selected folder to save note into".to_owned(),
                        );
                    },
                };
                let previous = match &self.current_file {
                    Some(c) => Some((c.clone(), self.document.text_string())),
                    None => None,
                };
                self.note_is_dirty = true;
                self.document = NoteDocument::new_empty();
                self.current_file = Some(path);
                self.new_note_title_entry_content = String::new();
                self.is_creating_new_note = false;
                NotesAction::StartNewNote { previous }
            },
            NotesPageMessage::RenameNote => {
                if self.selected_folder.is_none() {
                    return NotesAction::ErrorToast("No selected folder to save note into".to_owned());
                }
                let renamed = match &self.current_note_being_managed_path {
                    Some(p) => {
                        let with_name = path_with_file_name(
                            p.as_str(),
                            self.rename_note_entry_text.as_str(),
                        );
                        set_extension(with_name.as_str(), "md")
                    },
                    None => {
                        return NotesAction::NextTwo(
                            NotesPageMessage::SaveNote,
                            NotesPageMessage::LoadFolderAsNotesList,
                        );
                    },
                };
                let same = same_optional_path_exec(
                    &self.current_file,
                    &self.current_note_being_managed_path,
                );
                let from = self.current_note_being_managed_path.take().unwrap();
                let to = renamed.clone();
                if same {
                    self.current_file = Some(renamed);
                }
                self.rename_note_entry_text = String::new();
                self.display_rename_view = false;
                self.display_delete_view = false;
                NotesAction::RenameFile { from, to }
            },
            NotesPageMessage::DeleteNote => {
                if self.current_note_being_managed_path.is_none() {
                    return NotesAction::Nothing;
                }
                let same = same_optional_path_exec(
                    &self.current_file,
                    &self.current_note_being_managed_path,
                );
                let p = self.current_note_being_managed_path.take().unwrap();
                if same {
                    self.current_file = None;
                }
                self.document = NoteDocument::new_empty();
                NotesAction::DeleteFile(p)
            },
            _ => NotesAction::Nothing,
        }
    }

    #[verifier::rlimit(100)]
    #[verifier::spinoff_prover]
    fn update_archive(&mut self, message: NotesPageMessage) -> (a: NotesAction)
        requires
            notes_message_group(message) == 1,
            message is ArchiveNote
                || message is UnarchiveNote
                || message is LoadArchivedList
                || message is SetArchivedList
                || message is OpenWebsiteStylesFile,
        ensures
            files_step(*old(self), *final(self), message, a),
    {
        match &message {
            NotesPageMessage::ArchiveNote => self.archive_managed_note(message),
            NotesPageMessage::UnarchiveNote => self.unarchive_managed_note(message),
            NotesPageMessage::LoadArchivedList => self.load_archived_list(message),
            NotesPageMessage::SetArchivedList(..) => self.set_archived_list(message),
            _ => self.open_styles_file(message),
        }
    }

    #[verifier::rlimit(100)]
    #[verifier::spinoff_prover]
    fn archive_managed_note(&mut self, message: NotesPageMessage) -> (a: NotesAction)
        requires
            notes_message_group(message) == 1,
            message is ArchiveNote
                || message is UnarchiveNote
                || message is LoadArchivedList
                || message is SetArchivedList
                || message is OpenWebsiteStylesFile,
            message is ArchiveNote,
        ensures
            files_step(*old(self), *final(self), message, a),
    {
        match message {
            NotesPageMessage::ArchiveNote => {
                let mut a = NotesAction::Nothing;
                if let Some(folder) = &self.selected_folder {
                    if let Some(p) = &self.current_note_being_managed_path {
                        archive_file(&mut self.archived_notes_list, p.as_str());
                        a = NotesAction::WriteArchivedList(folder.clone());
                    }
                }
                self.current_note_being_managed_path = None;
                self.display_archive_view = false;
                a
            },
            _ => NotesAction::Nothing,
        }
    }

    #[verifier::rlimit(100)]
    #[verifier::spinoff_prover]
    fn unarchive_managed_note(&mut self, message: NotesPageMessage) -> (a: NotesAction)
        requires
            notes_message_group(message) == 1,
            message is ArchiveNote
                || message is UnarchiveNote
                || message is LoadArchivedList
                || message is SetArchivedList
                || message is OpenWebsiteStylesFile,
            message is UnarchiveNote,
        ensures
            files_step(*old(self), *final(self), message, a),
    {
        match message {
            NotesPageMessage::UnarchiveNote => {
                let mut a = NotesAction::Nothing;
                if let Some(folder) = &self.selected_folder {
                    if let Some(p) = &self.current_note_being_managed_path {
                        if unarchive_file(&mut self.archived_notes_list, p.as_str()) {
                            a = NotesAction::WriteArchivedList(folder.clone());
                        }
                    }
                }
                self.current_note_being_managed_path = None;
                self.display_archive_view = false;
                a
            },
            _ => NotesAction::Nothing,
        }
    }

    #[verifier::rlimit(100)]
    #[verifier::spinoff_prover]
    fn load_archived_list(&mut self, message: NotesPageMessage) -> (a: NotesAction)
        requires
            notes_message_group(message) == 1,
            message is ArchiveNote
                || message is UnarchiveNote
                || message is LoadArchivedList
                || message is SetArchivedList
                || message is OpenWebsiteStylesFile,
            message is LoadArchivedList,
        ensures
            files_step(*old(self), *final(self), message, a),
    {
        match message {
            NotesPageMessage::LoadArchivedList => match &self.selected_folder {
                Some(f) => NotesAction::ReadArchivedList(f.clone()),
                None => {
                    self.archived_notes_list = Vec::new();
                    NotesAction::Nothing
                },
            },
            _ => NotesAction::Nothing,
        }
    }

    #[verifier::rlimit(100)]
    #[verifier::spinoff_prover]
    fn set_archived_list(&mut self, message: NotesPageMessage) -> (a: NotesAction)
        requires
            notes_message_group(message) == 1,
            message is ArchiveNote
                || message is UnarchiveNote
                || message is LoadArchivedList
                || message is SetArchivedList
                || message is OpenWebsiteStylesFile,
            message is SetArchivedList,
        ensures
            files_step(*old(self), *final(self), message, a),
    {
        match message {
            NotesPageMessage::SetArchivedList(l) => {
                self.archived_notes_list = l;
                NotesAction::Nothing
            },
            _ => NotesAction::Nothing,
        }
    }

    #[verifier::rlimit(100)]
    #[verifier::spinoff_prover]
    fn open_styles_file(&mut self, message: NotesPageMessage) -> (a: NotesAction)
        requires
            notes_message_group(message) == 1,
            message is ArchiveNote
                || message is UnarchiveNote
                || message is LoadArchivedList
                || message is SetArchivedList
                || message is OpenWebsiteStylesFile,
            message is OpenWebsiteStylesFile,
        ensures
            files_step(*old(self), *final(self), message, a),
    {
        match message {
            NotesPageMessage::OpenWebsiteStylesFile => match &self.website_folder {
                Some(w) => {
                    let www = join_path(w.as_str(), "www");
                    NotesAction::CheckStylesFile(join_path(www.as_str(), "styles.css"))
                },
                None => NotesAction::ErrorToast(
                    "Can't open styles file, folder for website files is not set".to_owned(),
                ),
            },
            _ => NotesAction::Nothing,
        }
    }


    #[verifier::rlimit(100)]
    #[verifier::spinoff_prover]
    fn update_exports(&mut self, message: NotesPageMessage) -> (a: NotesAction)
        requires
            notes_message_group(message) == 1,
            message is WebsiteStylesFileChecked
                || message is ExportPDF
                || message is ExportToWebsite,
        ensures
            files_step(*old(self), *final(self), message, a),
    {
        match message {
            NotesPageMessage::WebsiteStylesFileChecked(css, exists) => {
                if exists {
                    let a = self.switch_to(css);
                    self.show_markdown = false;
                    a
                } else {
                    NotesAction::Nothing
                }
            },
            NotesPageMessage::ExportPDF => NotesAction::ExportPdf {
                text: self.document.text_string(),
                file: clone_option(&self.current_file),
            },
            NotesPageMessage::ExportToWebsite => NotesAction::ExportWebsite {
                text: self.document.text_string(),
                file: clone_option(&self.current_file),
                website: clone_option(&self.website_folder),
            },
            _ => NotesAction::Nothing,
        }
    }


    fn edit_plan_exec(&self, e: NoteEdit, line: &Option<String>, x: usize) -> (r: (
        Vec<NoteEdit>,
        bool,
    ))
        requires
            (e is Enter && self.autocomplete_lists) ==> list_line_readable(opt_text(*line))
                && list_action_fits(list_action_for(opt_text(*line), x)),
        ensures
            (r.0@, r.1) == edit_plan(*self, e, *line, x),
    {
        let closing = match &e {
            NoteEdit::Insert(c) => if self.autocomplete_brackets_etc {
                closing_bracket(*c)
            } else {
                None
            },
            _ => None,
        };
        match closing {
            Some(d) => (vec![e, NoteEdit::Insert(d)], true),
            None => {
                let is_enter = match &e {
                    NoteEdit::Enter => true,
                    _ => false,
                };
                if self.autocomplete_lists && is_enter {
                    let l = match line {
                        Some(s) => Some(s.as_str()),
                        None => None,
                    };
                    let action = parse_markdown_lists(l, x);
                    let edits = edits_for_list_action(action);
                    (note_edits_of(&edits), false)
                } else {
                    (vec![e], false)
                }
            },
        }
    }

    #[verifier::rlimit(100)]
    #[verifier::spinoff_prover]
    fn update_editor(&mut self, message: NotesPageMessage) -> (a: NotesAction)
        requires
            notes_message_group(message) == 2,
            notes_can_take(*old(self), message),
        ensures
            editor_step(*old(self), *final(self), message, a),
    {
        match &message {
            NotesPageMessage::Edit(..)
            | NotesPageMessage::LinkClicked(..)
            | NotesPageMessage::ToggleMarkdown
            | NotesPageMessage::ToggleDocumentStatisticsView => self.update_typing(message),
            NotesPageMessage::CalculateNoteStatistics
            | NotesPageMessage::SetNoteStatistics(..)
            | NotesPageMessage::CalculateSpellingCorrectionsList
            | NotesPageMessage::SetSpellingCorrectionsList(..) => self.update_counts(message),
            _ => self.update_history(message),
        }
    }

    #[verifier::rlimit(100)]
    #[verifier::spinoff_prover]
    fn update_typing(&mut self, message: NotesPageMessage) -> (a: NotesAction)
        requires
            notes_message_group(message) == 2,
            notes_can_take(*old(self), message),
            message is Edit
                || message is LinkClicked
                || message is ToggleMarkdown
                || message is ToggleDocumentStatisticsView,
        ensures
            editor_step(*old(self), *final(self), message, a),
    {
        match message {
            NotesPageMessage::Edit(o, line, x, c, sel) => match o {
                Some(e) => {
                    let (edits, then_move_left) = self.edit_plan_exec(e, &line, x);
                    self.note_is_dirty = true;
                    let _ = self.document.apply_edits(&edits, c, sel);
                    NotesAction::ApplyEdits { edits, then_move_left }
                },
                None => NotesAction::PerformOnEditor,
            },
            NotesPageMessage::LinkClicked(url) => NotesAction::OpenLink(url),
            NotesPageMessage::ToggleMarkdown => {
                self.show_markdown = !self.show_markdown;
                if self.show_markdown {
                    NotesAction::RefreshPreview
                } else {
                    NotesAction::Nothing
                }
            },
            NotesPageMessage::ToggleDocumentStatisticsView => {
                self.show_document_statistics_view = !self.show_document_statistics_view;
                if self.show_document_statistics_view {
                    NotesAction::Next(NotesPageMessage::CalculateNoteStatistics)
                } else {
                    NotesAction::Nothing
                }
            },
            _ => NotesAction::Nothing,
        }
    }

    #[verifier::rlimit(100)]
    #[verifier::spinoff_prover]
    fn update_counts(&mut self, message: NotesPageMessage) -> (a: NotesAction)
        requires
            notes_message_group(message) == 2,
            notes_can_take(*old(self), message),
            message is CalculateNoteStatistics
                || message is SetNoteStatistics
                || message is CalculateSpellingCorrectionsList
                || message is SetSpellingCorrectionsList,
        ensures
            editor_step(*old(self), *final(self), message, a),
    {
        match message {
            NotesPageMessage::CalculateNoteStatistics => {
                let t = self.document.text_string();
                NotesAction::Next(NotesPageMessage::SetNoteStatistics(note_statistics(t.as_str())))
            },
            NotesPageMessage::SetNoteStatistics(st) => {
                self.current_note_statistics = st;
                NotesAction::Nothing
            },
            NotesPageMessage::CalculateSpellingCorrectionsList => NotesAction::CheckSpelling(
                self.document.text_string(),
            ),
            NotesPageMessage::SetSpellingCorrectionsList(l) => {
                self.spelling_corrections_list = l;
                NotesAction::Nothing
            },
            _ => NotesAction::Nothing,
        }
    }

    #[verifier::rlimit(100)]
    #[verifier::spinoff_prover]
    fn update_history(&mut self, message: NotesPageMessage) -> (a: NotesAction)
        requires
            notes_message_group(message) == 2,
            notes_can_take(*old(self), message),
            message is GoToSpellingMistake
                || message is Undo
                || message is Redo,
        ensures
            editor_step(*old(self), *final(self), message, a),
    {
        match message {
            NotesPageMessage::GoToSpellingMistake(i, _) => NotesAction::SelectInEditor(i),
            NotesPageMessage::Undo => match self.document.undo() {
                Some(t) => {
                    self.note_is_dirty = true;
                    NotesAction::ShowText(t)
                },
                None => NotesAction::Nothing,
            },
            NotesPageMessage::Redo => match self.document.redo() {
                Some(t) => {
                    self.note_is_dirty = true;
                    NotesAction::ShowText(t)
                },
                None => NotesAction::Nothing,
            },
            _ => NotesAction::Nothing,
        }
    }


    #[verifier::rlimit(100)]
    #[verifier::spinoff_prover]
    fn update_fields(&mut self, message: NotesPageMessage) -> (a: NotesAction)
        requires
            notes_message_group(message) == 0,
        ensures
            fields_step(*old(self), *final(self), message, a),
    {
        match &message {
            NotesPageMessage::ToggleSidebar | NotesPageMessage::ToggleEditor | NotesPageMessage::FilterNotesList(..) | NotesPageMessage::ToggleExtraToolsMenu | NotesPageMessage::SetAutoCompleteLists(..) | NotesPageMessage::SetConfirmBeforeDelete(..) => self.update_options(message),
            NotesPageMessage::UpdateNewNoteTitleEntry(..) | NotesPageMessage::CancelCreateNewNote | NotesPageMessage::StartCreatingNewNote | NotesPageMessage::SetRenameNoteText(..) | NotesPageMessage::ToggleRenameNoteView | NotesPageMessage::ToggleDeleteNoteView => self.update_naming(message),
            _ => self.update_views(message),
        }
    }

    #[verifier::rlimit(100)]
    #[verifier::spinoff_prover]
    fn update_options(&mut self, message: NotesPageMessage) -> (a: NotesAction)
        requires
            notes_message_group(message) == 0,
            message is ToggleSidebar
                || message is ToggleEditor
                || message is FilterNotesList
                || message is ToggleExtraToolsMenu
                || message is SetAutoCompleteLists
                || message is SetConfirmBeforeDelete,
        ensures
            fields_step(*old(self), *final(self), message, a),
    {
        match message {
            NotesPageMessage::ToggleSidebar => {
                self.show_sidebar = !self.show_sidebar;
                NotesAction::Nothing
            },
            NotesPageMessage::ToggleEditor => {
                self.show_editor = !self.show_editor;
                NotesAction::Nothing
            },
            NotesPageMessage::FilterNotesList(t) => {
                self.notes_list_filter = t;
                NotesAction::Nothing
            },
            NotesPageMessage::ToggleExtraToolsMenu => {
                self.show_extra_tools_menu = !self.show_extra_tools_menu;
                NotesAction::Nothing
            },
            NotesPageMessage::SetAutoCompleteLists(b) => {
                self.autocomplete_lists = b;
                NotesAction::Nothing
            },
            NotesPageMessage::SetConfirmBeforeDelete(b) => {
                self.confirm_before_delete_note = b;
                NotesAction::Nothing
            },
            _ => NotesAction::Nothing,
        }
    }

    #[verifier::rlimit(100)]
    #[verifier::spinoff_prover]
    fn update_naming(&mut self, message: NotesPageMessage) -> (a: NotesAction)
        requires
            notes_message_group(message) == 0,
            message is UpdateNewNoteTitleEntry
                || message is CancelCreateNewNote
                || message is StartCreatingNewNote
                || message is SetRenameNoteText
                || message is ToggleRenameNoteView
                || message is ToggleDeleteNoteView,
        ensures
            fields_step(*old(self), *final(self), message, a),
    {
        match message {
            NotesPageMessage::UpdateNewNoteTitleEntry(t) => {
                self.new_note_title_entry_content = t;
                NotesAction::Nothing
            },
            NotesPageMessage::CancelCreateNewNote => {
                self.is_creating_new_note = false;
                self.new_note_title_entry_content = String::new();
                NotesAction::Nothing
            },
            NotesPageMessage::StartCreatingNewNote => {
                self.is_creating_new_note = true;
                NotesAction::FocusNewNoteTitle
            },
            NotesPageMessage::SetRenameNoteText(t) => {
                self.rename_note_entry_text = t;
                NotesAction::Nothing
            },
            NotesPageMessage::ToggleRenameNoteView => {
                self.display_rename_view = !self.display_rename_view;
                if self.display_rename_view {
                    NotesAction::FocusRenameNote
                } else {
                    self.rename_note_entry_text = String::new();
                    NotesAction::Nothing
                }
            },
            NotesPageMessage::ToggleDeleteNoteView => {
                self.display_delete_view = !self.display_delete_view;
                NotesAction::Nothing
            },
            _ => NotesAction::Nothing,
        }
    }

    #[verifier::rlimit(100)]
    #[verifier::spinoff_prover]
    fn update_views(&mut self, message: NotesPageMessage) -> (a: NotesAction)
        requires
            notes_message_group(message) == 0,
            message is ShowMenuForNote
                || message is SetAutocompleteBrackets
                || message is ToggleSpellCheckView
                || message is ToggleArchiveNoteView
                || message is ToggleShowArchivedNotes,
        ensures
            fields_step(*old(self), *final(self), message, a),
    {
        match message {
            NotesPageMessage::ShowMenuForNote(o) => {
                self.display_rename_view = false;
                self.display_delete_view = false;
                self.current_note_being_managed_path = o;
                NotesAction::Nothing
            },
            NotesPageMessage::SetAutocompleteBrackets(b) => {
                self.autocomplete_brackets_etc = b;
                NotesAction::Nothing
            },
            NotesPageMessage::ToggleSpellCheckView => {
                self.show_spell_check_view = !self.show_spell_check_view;
                NotesAction::Nothing
            },
            NotesPageMessage::ToggleArchiveNoteView => {
                self.display_archive_view = !self.display_archive_view;
                NotesAction::Nothing
            },
            NotesPageMessage::ToggleShowArchivedNotes => {
                self.show_archived_notes = !self.show_archived_notes;
                NotesAction::Nothing
            },
            _ => NotesAction::Nothing,
        }
    }
}


/// The message for `Ctrl` with the character key `c` on the notes page, if any: a new note,
/// the sidebar, the preview, the editor, undo, redo and the spelling view.
pub open spec fn notes_shortcut(c: char) -> Option<NotesPageMessage> {
    if c == 'n' || c == 'N' {
        Some(NotesPageMessage::StartCreatingNewNote)
    } else if c == 'b' || c == 'B' {
        Some(NotesPageMessage::ToggleSidebar)
    } else if c == 'm' || c == 'M' {
        Some(NotesPageMessage::ToggleMarkdown)
    } else if c == 'e' || c == 'E' {
        Some(NotesPageMessage::ToggleEditor)
    } else if c == 'z' || c == 'Z' {
        Some(NotesPageMessage::Undo)
    } else if c == 'y' || c == 'Y' {
        Some(NotesPageMessage::Redo)
    } else if c == 'k' || c == 'K' {
        Some(NotesPageMessage::ToggleSpellCheckView)
    } else {
        None
    }
}

/// The message that `Ctrl` together with the character key `c` sends to the notes page.
pub fn for_ctrl_shortcut(c: char) -> (m: Option<NotesPageMessage>)
    ensures
        m == notes_shortcut(c),
{
    if c == 'n' || c == 'N' {
        Some(NotesPageMessage::StartCreatingNewNote)
    } else if c == 'b' || c == 'B' {
        Some(NotesPageMessage::ToggleSidebar)
    } else if c == 'm' || c == 'M' {
        Some(NotesPageMessage::ToggleMarkdown)
    } else if c == 'e' || c == 'E' {
        Some(NotesPageMessage::ToggleEditor)
    } else if c == 'z' || c == 'Z' {
        Some(NotesPageMessage::Undo)
    } else if c == 'y' || c == 'Y' {
        Some(NotesPageMessage::Redo)
    } else if c == 'k' || c == 'K' {
        Some(NotesPageMessage::ToggleSpellCheckView)
    } else {
        None
    }
}


/// Archiving a note whose name is not archived yet, then opening its menu again and
/// unarchiving it, gives the page back the archived list it had.
pub proof fn lemma_archive_then_unarchive_note(
    p0: NotesPage,
    p1: NotesPage,
    p2: NotesPage,
    p3: NotesPage,
    a1: NotesAction,
    a2: NotesAction,
    a3: NotesAction,
    path: String,
)
    requires
        p0.selected_folder is Some,
        p0.current_note_being_managed_path == Some(path),
        forall|i: int|
            0 <= i < p0.archived_notes_list@.len() ==> p0.archived_notes_list@[i]@ != archive_name(
                path@,
            ),
        notes_step(p0, p1, NotesPageMessage::ArchiveNote, a1),
        notes_step(p1, p2, NotesPageMessage::ShowMenuForNote(Some(path)), a2),
        notes_step(p2, p3, NotesPageMessage::UnarchiveNote, a3),
    ensures
        p3.archived_notes_list@ == p0.archived_notes_list@,
        p3.current_note_being_managed_path is None,
{
    lemma_archive_then_unarchive(
        p0.archived_notes_list@,
        p1.archived_notes_list@,
        p3.archived_notes_list@,
        path@,
    );
}

} // verus!
