//! The settings page: which tab is shown, the saving state, and how each setting the user
//! changes updates the application's settings and what has to happen next.

use vstd::prelude::*;

use crate::config::{theme_name, AppConfig, AppTheme};
use crate::page::{page_from_name, Page, SettingsTab};
use crate::setup_wizard::server_address;
use crate::sync::{parses_as_url, server_url_from_input};

verus! {

/// The state of the settings page.
pub struct SettingsPage {
    /// Whether a save is under way.
    pub is_saving: bool,
    /// Whether the last save succeeded.
    pub save_was_successful: bool,
    /// What the last save reported.
    pub save_message: String,
    /// The tab shown.
    pub current_tab: SettingsTab,
    /// The server address being typed.
    pub server_url_editor_text: String,
}

/// What the user does on the settings page. Paths are held as their text.
pub enum SettingsPageMessage {
    SetTheme(AppTheme),
    ChangeTab(SettingsTab),
    StartSaving,
    ResultFromSave((bool, String)),
    SetDefaultPageOnOpen(String),
    NotesPickDefaultFolder,
    NotesSetDefaultFolder(Option<String>),
    NotesSetShowSidebarOnStart(bool),
    NotesSetShowEditorOnStart(bool),
    NotesSetShowMarkdownOnStart(bool),
    NotesSetShowConfirmDelete(bool),
    NotesSetAutocompleteBrackets(bool),
    NotesSetAutocompleteLists(bool),
    PasswordsPickDefaultDatabase,
    PasswordsSetDefaultDatabase(Option<String>),
    PasswordsSetShowSidebarOnStart(bool),
    TasksPickDefaultProjectFolder,
    TasksSetDefaultProjectFolder(Option<String>),
    TasksPickDefaultProjectFile,
    TasksSetDefaultProjectFile(Option<String>),
    TasksSetKanbanTaskViewIsDefault(bool),
    TasksSetShowSidebarOnStart(bool),
    TasksSetConfirmBeforeDelete(bool),
    TasksSetRightClickToEditTask(bool),
    TasksSetShowTaskCompletionToolbar(bool),
    GalleryPickDefaultFolder,
    GallerySetDefaultFolder(Option<String>),
    GallerySetRunThumbnailGenerationOnStart(bool),
    GallerySetRunFaceExtractionOnStart(bool),
    GallerySetRunFaceRecognitionOnStart(bool),
    SyncUpdateServerUrl(String),
    SyncSetServerUrl,
    SyncPickDefaultFolder,
    SyncSetDefaultFolder(Option<String>),
    SyncSetShouldSync(bool),
}

/// Which chooser the user is asked to pick a folder or file with.
#[derive(Debug, PartialEq, Eq, Structural, Clone, Copy)]
pub enum SettingsPick {
    NotesFolder,
    PasswordsDatabase,
    TasksFolder,
    GalleryFolder,
    SyncFolder,
}

/// What another page is told after one of its settings changed.
pub enum PageNotice {
    NotesFolder(Option<String>),
    NotesConfirmBeforeDelete(bool),
    NotesAutocompleteBrackets(bool),
    NotesAutocompleteLists(bool),
    PasswordsDatabase(Option<String>),
    TasksFolder(Option<String>),
    TasksProjectFile(Option<String>),
    TasksConfirmBeforeDelete(bool),
    TasksShowCompletionToolbar(bool),
    TasksRightClickToEdit(bool),
    GalleryFolder(Option<String>),
}

/// What has to happen after the settings page handled a message.
pub enum SettingsFollowUp {
    /// Nothing.
    Nothing,
    /// Save the settings.
    SaveConfig,
    /// Ask the user to pick a folder or file for a setting.
    Pick(SettingsPick),
    /// Ask the user to pick a project file, starting in the given folder.
    PickProjectFile(String),
    /// Save the settings, then tell another page.
    SaveConfigThen(PageNotice),
    /// Save the settings, then show a good toast with the text.
    SaveConfigThenToast(String),
    /// Show a bad toast with the text.
    ErrorToast(String),
}

/// The toast shown once a new server address is saved.
pub open spec fn new_server_url_toast() -> Seq<char> {
    "Close and reopen the app to start using the new server url"@
}

/// The toast shown when the typed server address is not a URL.
pub open spec fn invalid_url_toast() -> Seq<char> {
    "Please enter a valid URL"@
}

/// The toast shown once a new sync folder is saved.
pub open spec fn new_sync_folder_toast() -> Seq<char> {
    "Close and reopen the app to start using the new sync folder"@
}

/// The toast shown once syncing is switched on or off.
pub open spec fn sync_setting_toast() -> Seq<char> {
    "Close and reopen the app to reflect the sync setting"@
}

impl SettingsPage {
    /// The settings page for the settings `app_config`: the general tab, nothing being saved,
    /// and the saved server address in the editor.
    pub fn new(app_config: &AppConfig) -> (r: SettingsPage)
        ensures
            !r.is_saving,
            r.save_was_successful,
            r.save_message@ == "Settings saved"@,
            r.current_tab == SettingsTab::General,
            r.server_url_editor_text@ == app_config.sync_config.server_url@,
    {
        SettingsPage {
            is_saving: false,
            save_was_successful: true,
            save_message: "Settings saved".to_owned(),
            current_tab: SettingsTab::General,
            server_url_editor_text: app_config.sync_config.server_url.clone(),
        }
    }

    /// Handles `message`, changing the page and the settings `app_config`, and says what has
    /// to happen next. A message that changes a setting saves the settings; where another page
    /// uses the setting, that page is told after saving.
    pub fn update(&mut self, message: SettingsPageMessage, app_config: &mut AppConfig) -> (r:
        SettingsFollowUp)
        ensures
            match message {
                SettingsPageMessage::ResultFromSave((ok, text)) => {
                    &&& final(self).save_was_successful == ok
                    &&& final(self).save_message == text
                    &&& !final(self).is_saving
                    &&& final(self).current_tab == old(self).current_tab
                    &&& final(self).server_url_editor_text == old(self).server_url_editor_text
                    &&& *final(app_config) == *old(app_config)
                    &&& r is Nothing
                },
                SettingsPageMessage::StartSaving => {
                    &&& *final(self) == (SettingsPage { is_saving: true, ..*old(self) })
                    &&& *final(app_config) == *old(app_config)
                    &&& r is Nothing
                },
                SettingsPageMessage::ChangeTab(tab) => {
                    &&& *final(self) == (SettingsPage { current_tab: tab, ..*old(self) })
                    &&& *final(app_config) == *old(app_config)
                    &&& r is Nothing
                },
                SettingsPageMessage::SyncUpdateServerUrl(s) => {
                    &&& *final(self) == (SettingsPage { server_url_editor_text: s, ..*old(self) })
                    &&& *final(app_config) == *old(app_config)
                    &&& r is SaveConfig
                },
                _ => *final(self) == *old(self) && settings_change(
                    *old(app_config),
                    *final(app_config),
                    message,
                    old(self).server_url_editor_text@,
                    r,
                ),
            },
    {
        match message {
            SettingsPageMessage::ResultFromSave((ok, text)) => {
                self.save_was_successful = ok;
                self.save_message = text;
                self.is_saving = false;
                SettingsFollowUp::Nothing
            },
            SettingsPageMessage::StartSaving => {
                self.is_saving = true;
                SettingsFollowUp::Nothing
            },
            SettingsPageMessage::ChangeTab(tab) => {
                self.current_tab = tab;
                SettingsFollowUp::Nothing
            },
            SettingsPageMessage::SyncUpdateServerUrl(s) => {
                self.server_url_editor_text = s;
                SettingsFollowUp::SaveConfig
            },
            SettingsPageMessage::SyncSetServerUrl => {
                match server_url_from_input(self.server_url_editor_text.as_str()) {
                    Some(address) => {
                        app_config.sync_config.server_url = address;
                        SettingsFollowUp::SaveConfigThenToast(
                            "Close and reopen the app to start using the new server url".to_owned(),
                        )
                    },
                    None => SettingsFollowUp::ErrorToast("Please enter a valid URL".to_owned()),
                }
            },
            _ => change_setting(message, app_config),
        }
    }
}

/// `after` is `before` with the setting that `message` sets changed, and `r` is what has to
/// happen next; `editor` is the server address being typed.
pub open spec fn settings_change(
    before: AppConfig,
    after: AppConfig,
    message: SettingsPageMessage,
    editor: Seq<char>,
    r: SettingsFollowUp,
) -> bool {
    match message {
        SettingsPageMessage::SetTheme(t) => {
            &&& after == AppConfig { theme_string: after.theme_string, ..before }
            &&& after.theme_text() == theme_name(t)
            &&& r is SaveConfig
        },
        SettingsPageMessage::SetDefaultPageOnOpen(name) => {
            &&& after == AppConfig { default_page_on_open: page_from_name(name@), ..before }
            &&& r is SaveConfig
        },
        SettingsPageMessage::NotesPickDefaultFolder => after == before && r == SettingsFollowUp::Pick(
            SettingsPick::NotesFolder,
        ),
        SettingsPageMessage::NotesSetDefaultFolder(f) => {
            &&& after.notes_config.default_folder == f
            &&& after == AppConfig {
                notes_config: crate::config::NotesPageConfig {
                    default_folder: after.notes_config.default_folder,
                    ..before.notes_config
                },
                ..before
            }
            &&& r matches SettingsFollowUp::SaveConfigThen(PageNotice::NotesFolder(g)) && opt_text(g) == opt_text(f)
        },
        SettingsPageMessage::NotesSetShowSidebarOnStart(b) => {
            &&& after == AppConfig {
                notes_config: crate::config::NotesPageConfig {
                    show_sidebar_on_start: b,
                    ..before.notes_config
                },
                ..before
            }
            &&& r is SaveConfig
        },
        SettingsPageMessage::NotesSetShowEditorOnStart(b) => {
            &&& after == AppConfig {
                notes_config: crate::config::NotesPageConfig {
                    show_editor_on_start: b,
                    ..before.notes_config
                },
                ..before
            }
            &&& r is SaveConfig
        },
        SettingsPageMessage::NotesSetShowMarkdownOnStart(b) => {
            &&& after == AppConfig {
                notes_config: crate::config::NotesPageConfig {
                    show_markdown_on_start: b,
                    ..before.notes_config
                },
                ..before
            }
            &&& r is SaveConfig
        },
        SettingsPageMessage::NotesSetShowConfirmDelete(b) => {
            &&& after == AppConfig {
                notes_config: crate::config::NotesPageConfig {
                    confirm_before_delete: b,
                    ..before.notes_config
                },
                ..before
            }
            &&& r == SettingsFollowUp::SaveConfigThen(PageNotice::NotesConfirmBeforeDelete(b))
        },
        SettingsPageMessage::NotesSetAutocompleteBrackets(b) => {
            &&& after == AppConfig {
                notes_config: crate::config::NotesPageConfig {
                    autocomplete_brackets_etc: b,
                    ..before.notes_config
                },
                ..before
            }
            &&& r == SettingsFollowUp::SaveConfigThen(PageNotice::NotesAutocompleteBrackets(b))
        },
        SettingsPageMessage::NotesSetAutocompleteLists(b) => {
            &&& after == AppConfig {
                notes_config: crate::config::NotesPageConfig {
                    autocomplete_lists: b,
                    ..before.notes_config
                },
                ..before
            }
            &&& r == SettingsFollowUp::SaveConfigThen(PageNotice::NotesAutocompleteLists(b))
        },
        SettingsPageMessage::PasswordsPickDefaultDatabase => after == before && r
            == SettingsFollowUp::Pick(SettingsPick::PasswordsDatabase),
        SettingsPageMessage::PasswordsSetDefaultDatabase(f) => {
            &&& after.passwords_config.default_database == f
            &&& after == AppConfig {
                passwords_config: crate::config::PasswordPageConfig {
                    default_database: after.passwords_config.default_database,
                    ..before.passwords_config
                },
                ..before
            }
            &&& r matches SettingsFollowUp::SaveConfigThen(PageNotice::PasswordsDatabase(g)) && opt_text(g) == opt_text(f)
        },
        SettingsPageMessage::PasswordsSetShowSidebarOnStart(b) => {
            &&& after == AppConfig {
                passwords_config: crate::config::PasswordPageConfig {
                    show_sidebar_on_start: b,
                    ..before.passwords_config
                },
                ..before
            }
            &&& r is SaveConfig
        },
        SettingsPageMessage::TasksPickDefaultProjectFolder => after == before && r
            == SettingsFollowUp::Pick(SettingsPick::TasksFolder),
        SettingsPageMessage::TasksSetDefaultProjectFolder(f) => {
            &&& after.tasks_config.default_folder == f
            &&& after == AppConfig {
                tasks_config: crate::config::TaskPageConfig {
                    default_folder: after.tasks_config.default_folder,
                    ..before.tasks_config
                },
                ..before
            }
            &&& r matches SettingsFollowUp::SaveConfigThen(PageNotice::TasksFolder(g)) && opt_text(g) == opt_text(f)
        },
        SettingsPageMessage::TasksPickDefaultProjectFile => {
            &&& after == before
            &&& r matches SettingsFollowUp::PickProjectFile(start) && start@ == (
            match before.tasks_config.default_folder {
                Some(d) => d@,
                None => "/"@,
            })
        },
        SettingsPageMessage::TasksSetDefaultProjectFile(f) => {
            &&& after.tasks_config.default_project_file == f
            &&& after == AppConfig {
                tasks_config: crate::config::TaskPageConfig {
                    default_project_file: after.tasks_config.default_project_file,
                    ..before.tasks_config
                },
                ..before
            }
            &&& r matches SettingsFollowUp::SaveConfigThen(PageNotice::TasksProjectFile(g)) && opt_text(g) == opt_text(f)
        },
        SettingsPageMessage::TasksSetKanbanTaskViewIsDefault(b) => {
            &&& after == AppConfig {
                tasks_config: crate::config::TaskPageConfig {
                    kanban_task_view_is_default: b,
                    ..before.tasks_config
                },
                ..before
            }
            &&& r is SaveConfig
        },
        SettingsPageMessage::TasksSetShowSidebarOnStart(b) => {
            &&& after == AppConfig {
                tasks_config: crate::config::TaskPageConfig {
                    show_sidebar_on_start: b,
                    ..before.tasks_config
                },
                ..before
            }
            &&& r is SaveConfig
        },
        SettingsPageMessage::TasksSetConfirmBeforeDelete(b) => {
            &&& after == AppConfig {
                tasks_config: crate::config::TaskPageConfig {
                    confirm_before_delete: b,
                    ..before.tasks_config
                },
                ..before
            }
            &&& r == SettingsFollowUp::SaveConfigThen(PageNotice::TasksConfirmBeforeDelete(b))
        },
        SettingsPageMessage::TasksSetRightClickToEditTask(b) => {
            &&& after == AppConfig {
                tasks_config: crate::config::TaskPageConfig {
                    right_click_to_edit_task: b,
                    ..before.tasks_config
                },
                ..before
            }
            &&& r == SettingsFollowUp::SaveConfigThen(PageNotice::TasksRightClickToEdit(b))
        },
        SettingsPageMessage::TasksSetShowTaskCompletionToolbar(b) => {
            &&& after == AppConfig {
                tasks_config: crate::config::TaskPageConfig {
                    show_task_completion_toolbar: b,
                    ..before.tasks_config
                },
                ..before
            }
            &&& r == SettingsFollowUp::SaveConfigThen(PageNotice::TasksShowCompletionToolbar(b))
        },
        SettingsPageMessage::GalleryPickDefaultFolder => after == before && r
            == SettingsFollowUp::Pick(SettingsPick::GalleryFolder),
        SettingsPageMessage::GallerySetDefaultFolder(f) => {
            &&& after.gallery_config.default_folder == f
            &&& after == AppConfig {
                gallery_config: crate::config::GalleryPageConfig {
                    default_folder: after.gallery_config.default_folder,
                    ..before.gallery_config
                },
                ..before
            }
            &&& r matches SettingsFollowUp::SaveConfigThen(PageNotice::GalleryFolder(g)) && opt_text(g) == opt_text(f)
        },
        SettingsPageMessage::GallerySetRunThumbnailGenerationOnStart(b) => {
            &&& after == AppConfig {
                gallery_config: crate::config::GalleryPageConfig {
                    run_thumbnail_generation_on_start: b,
                    ..before.gallery_config
                },
                ..before
            }
            &&& r is SaveConfig
        },
        SettingsPageMessage::GallerySetRunFaceExtractionOnStart(b) => {
            &&& after == AppConfig {
                gallery_config: crate::config::GalleryPageConfig {
                    run_face_extraction_on_start: b,
                    ..before.gallery_config
                },
                ..before
            }
            &&& r is SaveConfig
        },
        SettingsPageMessage::GallerySetRunFaceRecognitionOnStart(b) => {
            &&& after == AppConfig {
                gallery_config: crate::config::GalleryPageConfig {
                    run_face_recognition_on_start: b,
                    ..before.gallery_config
                },
                ..before
            }
            &&& r is SaveConfig
        },
        SettingsPageMessage::SyncSetServerUrl => if parses_as_url(editor) {
            &&& after == AppConfig {
                sync_config: crate::config::SyncPageConfig {
                    server_url: after.sync_config.server_url,
                    ..before.sync_config
                },
                ..before
            }
            &&& after.sync_config.server_url@ == server_address(editor)
            &&& r matches SettingsFollowUp::SaveConfigThenToast(t) && t@ == new_server_url_toast()
        } else {
            &&& after == before
            &&& r matches SettingsFollowUp::ErrorToast(t) && t@ == invalid_url_toast()
        },
        SettingsPageMessage::SyncPickDefaultFolder => after == before && r
            == SettingsFollowUp::Pick(SettingsPick::SyncFolder),
        SettingsPageMessage::SyncSetDefaultFolder(f) => match f {
            Some(folder) => {
                &&& after == AppConfig {
                    sync_config: crate::config::SyncPageConfig {
                        default_data_storage_folder: folder,
                        ..before.sync_config
                    },
                    ..before
                }
                &&& r matches SettingsFollowUp::SaveConfigThenToast(t) && t@
                    == new_sync_folder_toast()
            },
            None => after == before && r is SaveConfig,
        },
        SettingsPageMessage::SyncSetShouldSync(b) => {
            &&& after == AppConfig {
                sync_config: crate::config::SyncPageConfig { should_sync: b, ..before.sync_config },
                ..before
            }
            &&& r matches SettingsFollowUp::SaveConfigThenToast(t) && t@ == sync_setting_toast()
        },
        _ => true,
    }
}

/// Which page's settings a message changes: 1 notes, 2 passwords, 3 tasks, 4 gallery, and 0
/// for the others.
pub open spec fn message_group(m: SettingsPageMessage) -> u8 {
    match m {
        SettingsPageMessage::NotesPickDefaultFolder | SettingsPageMessage::NotesSetDefaultFolder(_)
        | SettingsPageMessage::NotesSetShowSidebarOnStart(_)
        | SettingsPageMessage::NotesSetShowEditorOnStart(_)
        | SettingsPageMessage::NotesSetShowMarkdownOnStart(_)
        | SettingsPageMessage::NotesSetShowConfirmDelete(_)
        | SettingsPageMessage::NotesSetAutocompleteBrackets(_)
        | SettingsPageMessage::NotesSetAutocompleteLists(_) => 1,
        SettingsPageMessage::PasswordsPickDefaultDatabase
        | SettingsPageMessage::PasswordsSetDefaultDatabase(_)
        | SettingsPageMessage::PasswordsSetShowSidebarOnStart(_) => 2,
        SettingsPageMessage::TasksPickDefaultProjectFolder
        | SettingsPageMessage::TasksSetDefaultProjectFolder(_)
        | SettingsPageMessage::TasksPickDefaultProjectFile
        | SettingsPageMessage::TasksSetDefaultProjectFile(_)
        | SettingsPageMessage::TasksSetKanbanTaskViewIsDefault(_)
        | SettingsPageMessage::TasksSetShowSidebarOnStart(_)
        | SettingsPageMessage::TasksSetConfirmBeforeDelete(_)
        | SettingsPageMessage::TasksSetRightClickToEditTask(_)
        | SettingsPageMessage::TasksSetShowTaskCompletionToolbar(_) => 3,
        SettingsPageMessage::GalleryPickDefaultFolder
        | SettingsPageMessage::GallerySetDefaultFolder(_)
        | SettingsPageMessage::GallerySetRunThumbnailGenerationOnStart(_)
        | SettingsPageMessage::GallerySetRunFaceExtractionOnStart(_)
        | SettingsPageMessage::GallerySetRunFaceRecognitionOnStart(_) => 4,
        _ => 0,
    }
}

fn group_of_message(m: &SettingsPageMessage) -> (g: u8)
    ensures
        g == message_group(*m),
{
    match m {
        SettingsPageMessage::NotesPickDefaultFolder | SettingsPageMessage::NotesSetDefaultFolder(_)
        | SettingsPageMessage::NotesSetShowSidebarOnStart(_)
        | SettingsPageMessage::NotesSetShowEditorOnStart(_)
        | SettingsPageMessage::NotesSetShowMarkdownOnStart(_)
        | SettingsPageMessage::NotesSetShowConfirmDelete(_)
        | SettingsPageMessage::NotesSetAutocompleteBrackets(_)
        | SettingsPageMessage::NotesSetAutocompleteLists(_) => 1,
        SettingsPageMessage::PasswordsPickDefaultDatabase
        | SettingsPageMessage::PasswordsSetDefaultDatabase(_)
        | SettingsPageMessage::PasswordsSetShowSidebarOnStart(_) => 2,
        SettingsPageMessage::TasksPickDefaultProjectFolder
        | SettingsPageMessage::TasksSetDefaultProjectFolder(_)
        | SettingsPageMessage::TasksPickDefaultProjectFile
        | SettingsPageMessage::TasksSetDefaultProjectFile(_)
        | SettingsPageMessage::TasksSetKanbanTaskViewIsDefault(_)
        | SettingsPageMessage::TasksSetShowSidebarOnStart(_)
        | SettingsPageMessage::TasksSetConfirmBeforeDelete(_)
        | SettingsPageMessage::TasksSetRightClickToEditTask(_)
        | SettingsPageMessage::TasksSetShowTaskCompletionToolbar(_) => 3,
        SettingsPageMessage::GalleryPickDefaultFolder
        | SettingsPageMessage::GallerySetDefaultFolder(_)
        | SettingsPageMessage::GallerySetRunThumbnailGenerationOnStart(_)
        | SettingsPageMessage::GallerySetRunFaceExtractionOnStart(_)
        | SettingsPageMessage::GallerySetRunFaceRecognitionOnStart(_) => 4,
        _ => 0,
    }
}

/// Applies a message that changes a setting (or asks for a file) to `app_config`.
fn change_setting(message: SettingsPageMessage, app_config: &mut AppConfig) -> (r: SettingsFollowUp)
    requires
        !(message is ResultFromSave || message is StartSaving || message is ChangeTab
            || message is SyncUpdateServerUrl || message is SyncSetServerUrl),
    ensures
        settings_change(*old(app_config), *final(app_config), message, Seq::<char>::empty(), r),
{
    let g = group_of_message(&message);
    if g == 1 {
        apply_notes_setting(message, app_config)
    } else if g == 2 {
        apply_passwords_setting(message, app_config)
    } else if g == 3 {
        apply_tasks_setting(message, app_config)
    } else if g == 4 {
        apply_gallery_setting(message, app_config)
    } else {
        apply_general_setting(message, app_config)
    }
}

/// Applies a message of the notes group to `app_config`.
fn apply_notes_setting(message: SettingsPageMessage, app_config: &mut AppConfig) -> (r: SettingsFollowUp)
    requires
        message_group(message) == 1,
    ensures
        settings_change(*old(app_config), *final(app_config), message, Seq::<char>::empty(), r),
{
    match message {
        SettingsPageMessage::NotesPickDefaultFolder => SettingsFollowUp::Pick(SettingsPick::NotesFolder),
        SettingsPageMessage::NotesSetDefaultFolder(f) => {
            let notice = clone_option(&f);
            app_config.notes_config.default_folder = f;
            SettingsFollowUp::SaveConfigThen(PageNotice::NotesFolder(notice))
        },
        SettingsPageMessage::NotesSetShowSidebarOnStart(b) => {
            app_config.notes_config.show_sidebar_on_start = b;
            SettingsFollowUp::SaveConfig
        },
        SettingsPageMessage::NotesSetShowEditorOnStart(b) => {
            app_config.notes_config.show_editor_on_start = b;
            SettingsFollowUp::SaveConfig
        },
        SettingsPageMessage::NotesSetShowMarkdownOnStart(b) => {
            app_config.notes_config.show_markdown_on_start = b;
            SettingsFollowUp::SaveConfig
        },
        SettingsPageMessage::NotesSetShowConfirmDelete(b) => {
            app_config.notes_config.confirm_before_delete = b;
            SettingsFollowUp::SaveConfigThen(PageNotice::NotesConfirmBeforeDelete(b))
        },
        SettingsPageMessage::NotesSetAutocompleteBrackets(b) => {
            app_config.notes_config.autocomplete_brackets_etc = b;
            SettingsFollowUp::SaveConfigThen(PageNotice::NotesAutocompleteBrackets(b))
        },
        SettingsPageMessage::NotesSetAutocompleteLists(b) => {
            app_config.notes_config.autocomplete_lists = b;
            SettingsFollowUp::SaveConfigThen(PageNotice::NotesAutocompleteLists(b))
        },
        _ => SettingsFollowUp::Nothing,
    }
}

/// Applies a message of the passwords group to `app_config`.
fn apply_passwords_setting(message: SettingsPageMessage, app_config: &mut AppConfig) -> (r: SettingsFollowUp)
    requires
        message_group(message) == 2,
    ensures
        settings_change(*old(app_config), *final(app_config), message, Seq::<char>::empty(), r),
{
    match message {
        SettingsPageMessage::PasswordsPickDefaultDatabase => SettingsFollowUp::Pick(
            SettingsPick::PasswordsDatabase,
        ),
        SettingsPageMessage::PasswordsSetDefaultDatabase(f) => {
            let notice = clone_option(&f);
            app_config.passwords_config.default_database = f;
            SettingsFollowUp::SaveConfigThen(PageNotice::PasswordsDatabase(notice))
        },
        SettingsPageMessage::PasswordsSetShowSidebarOnStart(b) => {
            app_config.passwords_config.show_sidebar_on_start = b;
            SettingsFollowUp::SaveConfig
        },
        _ => SettingsFollowUp::Nothing,
    }
}

/// Applies a message of the tasks group to `app_config`.
fn apply_tasks_setting(message: SettingsPageMessage, app_config: &mut AppConfig) -> (r: SettingsFollowUp)
    requires
        message_group(message) == 3,
    ensures
        settings_change(*old(app_config), *final(app_config), message, Seq::<char>::empty(), r),
{
    match message {
        SettingsPageMessage::TasksPickDefaultProjectFolder => SettingsFollowUp::Pick(
            SettingsPick::TasksFolder,
        ),
        SettingsPageMessage::TasksSetDefaultProjectFolder(f) => {
            let notice = clone_option(&f);
            app_config.tasks_config.default_folder = f;
            SettingsFollowUp::SaveConfigThen(PageNotice::TasksFolder(notice))
        },
        SettingsPageMessage::TasksPickDefaultProjectFile => {
            let start = match &app_config.tasks_config.default_folder {
                Some(d) => d.clone(),
                None => "/".to_owned(),
            };
            SettingsFollowUp::PickProjectFile(start)
        },
        SettingsPageMessage::TasksSetDefaultProjectFile(f) => {
            let notice = clone_option(&f);
            app_config.tasks_config.default_project_file = f;
            SettingsFollowUp::SaveConfigThen(PageNotice::TasksProjectFile(notice))
        },
        SettingsPageMessage::TasksSetKanbanTaskViewIsDefault(b) => {
            app_config.tasks_config.kanban_task_view_is_default = b;
            SettingsFollowUp::SaveConfig
        },
        SettingsPageMessage::TasksSetShowSidebarOnStart(b) => {
            app_config.tasks_config.show_sidebar_on_start = b;
            SettingsFollowUp::SaveConfig
        },
        SettingsPageMessage::TasksSetConfirmBeforeDelete(b) => {
            app_config.tasks_config.confirm_before_delete = b;
            SettingsFollowUp::SaveConfigThen(PageNotice::TasksConfirmBeforeDelete(b))
        },
        SettingsPageMessage::TasksSetRightClickToEditTask(b) => {
            app_config.tasks_config.right_click_to_edit_task = b;
            SettingsFollowUp::SaveConfigThen(PageNotice::TasksRightClickToEdit(b))
        },
        SettingsPageMessage::TasksSetShowTaskCompletionToolbar(b) => {
            app_config.tasks_config.show_task_completion_toolbar = b;
            SettingsFollowUp::SaveConfigThen(PageNotice::TasksShowCompletionToolbar(b))
        },
        _ => SettingsFollowUp::Nothing,
    }
}

/// Applies a message of the gallery group to `app_config`.
fn apply_gallery_setting(message: SettingsPageMessage, app_config: &mut AppConfig) -> (r: SettingsFollowUp)
    requires
        message_group(message) == 4,
    ensures
        settings_change(*old(app_config), *final(app_config), message, Seq::<char>::empty(), r),
{
    match message {
        SettingsPageMessage::GalleryPickDefaultFolder => SettingsFollowUp::Pick(
            SettingsPick::GalleryFolder,
        ),
        SettingsPageMessage::GallerySetDefaultFolder(f) => {
            let notice = clone_option(&f);
            app_config.gallery_config.default_folder = f;
            SettingsFollowUp::SaveConfigThen(PageNotice::GalleryFolder(notice))
        },
        SettingsPageMessage::GallerySetRunThumbnailGenerationOnStart(b) => {
            app_config.gallery_config.run_thumbnail_generation_on_start = b;
            SettingsFollowUp::SaveConfig
        },
        SettingsPageMessage::GallerySetRunFaceExtractionOnStart(b) => {
            app_config.gallery_config.run_face_extraction_on_start = b;
            SettingsFollowUp::SaveConfig
        },
        SettingsPageMessage::GallerySetRunFaceRecognitionOnStart(b) => {
            app_config.gallery_config.run_face_recognition_on_start = b;
            SettingsFollowUp::SaveConfig
        },
        _ => SettingsFollowUp::Nothing,
    }
}

/// Applies a message of the other group to `app_config`.
fn apply_general_setting(message: SettingsPageMessage, app_config: &mut AppConfig) -> (r: SettingsFollowUp)
    requires
        message_group(message) == 0,
        !(message is ResultFromSave || message is StartSaving || message is ChangeTab
            || message is SyncUpdateServerUrl || message is SyncSetServerUrl),
    ensures
        settings_change(*old(app_config), *final(app_config), message, Seq::<char>::empty(), r),
{
    match message {
        SettingsPageMessage::SetTheme(t) => {
            app_config.set_theme(t);
            SettingsFollowUp::SaveConfig
        },
        SettingsPageMessage::SetDefaultPageOnOpen(name) => {
            app_config.set_default_page_on_open(name.as_str());
            SettingsFollowUp::SaveConfig
        },
        SettingsPageMessage::SyncPickDefaultFolder => SettingsFollowUp::Pick(SettingsPick::SyncFolder),
        SettingsPageMessage::SyncSetDefaultFolder(f) => match f {
            Some(folder) => {
                app_config.sync_config.default_data_storage_folder = folder;
                SettingsFollowUp::SaveConfigThenToast(
                    "Close and reopen the app to start using the new sync folder".to_owned(),
                )
            },
            None => SettingsFollowUp::SaveConfig,
        },
        SettingsPageMessage::SyncSetShouldSync(b) => {
            app_config.sync_config.should_sync = b;
            SettingsFollowUp::SaveConfigThenToast(
                "Close and reopen the app to reflect the sync setting".to_owned(),
            )
        },
        _ => SettingsFollowUp::Nothing,
    }
}

/// The text of an optional path.
pub open spec fn opt_text(o: Option<String>) -> Option<Seq<char>> {
    match o {
        Some(s) => Some(s@),
        None => None,
    }
}

/// A copy of an optional path.
pub(crate) fn clone_option(o: &Option<String>) -> (r: Option<String>)
    ensures
        opt_text(r) == opt_text(*o),
{
    match o {
        Some(s) => Some(s.clone()),
        None => None,
    }
}

} // verus!
