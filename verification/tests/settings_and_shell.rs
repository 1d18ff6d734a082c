use idirfein::app_shell::{AppAction, AppEvent, AppShell};
use idirfein::config::{AppConfig, AppTheme};
use idirfein::page::{Page, SettingsTab};
use idirfein::settings::{PageNotice, SettingsFollowUp, SettingsPage, SettingsPageMessage, SettingsPick};

fn config() -> AppConfig {
    AppConfig::default_for_home("/home/ana")
}

#[test]
fn settings_page_starts_on_general_tab() {
    let mut c = config();
    c.sync_config.server_url = "cloud.example".to_string();
    let page = SettingsPage::new(&c);
    assert_eq!(page.current_tab, SettingsTab::General);
    assert!(!page.is_saving);
    assert!(page.save_was_successful);
    assert_eq!(page.save_message, "Settings saved".to_string());
    assert_eq!(page.server_url_editor_text, "cloud.example".to_string());
}

#[test]
fn saving_state_and_tabs() {
    let mut c = config();
    let mut page = SettingsPage::new(&c);
    assert!(matches!(page.update(SettingsPageMessage::StartSaving, &mut c), SettingsFollowUp::Nothing));
    assert!(page.is_saving);
    assert!(matches!(
        page.update(SettingsPageMessage::ResultFromSave((false, "disk full".to_string())), &mut c),
        SettingsFollowUp::Nothing
    ));
    assert!(!page.is_saving);
    assert!(!page.save_was_successful);
    assert_eq!(page.save_message, "disk full".to_string());
    assert!(matches!(page.update(SettingsPageMessage::ChangeTab(SettingsTab::Gallery), &mut c), SettingsFollowUp::Nothing));
    assert_eq!(page.current_tab, SettingsTab::Gallery);
}

#[test]
fn theme_and_start_page_settings() {
    let mut c = config();
    let mut page = SettingsPage::new(&c);
    assert!(matches!(page.update(SettingsPageMessage::SetTheme(AppTheme::Nord), &mut c), SettingsFollowUp::SaveConfig));
    assert_eq!(c.get_theme(), Some(AppTheme::Nord));
    assert!(matches!(
        page.update(SettingsPageMessage::SetDefaultPageOnOpen("Tasks".to_string()), &mut c),
        SettingsFollowUp::SaveConfig
    ));
    assert_eq!(c.default_page_on_open, Page::Tasks);
}

#[test]
fn folder_settings_tell_their_page() {
    let mut c = config();
    let mut page = SettingsPage::new(&c);
    assert!(matches!(
        page.update(SettingsPageMessage::NotesPickDefaultFolder, &mut c),
        SettingsFollowUp::Pick(SettingsPick::NotesFolder)
    ));
    let r = page.update(SettingsPageMessage::NotesSetDefaultFolder(Some("/n".to_string())), &mut c);
    assert!(matches!(r, SettingsFollowUp::SaveConfigThen(PageNotice::NotesFolder(Some(ref f))) if f == "/n"));
    assert_eq!(c.notes_config.default_folder, Some("/n".to_string()));
    let r = page.update(SettingsPageMessage::GallerySetDefaultFolder(None), &mut c);
    assert!(matches!(r, SettingsFollowUp::SaveConfigThen(PageNotice::GalleryFolder(None))));
    assert_eq!(c.gallery_config.default_folder, None);
}

#[test]
fn project_file_chooser_starts_in_projects_folder() {
    let mut c = config();
    let mut page = SettingsPage::new(&c);
    let r = page.update(SettingsPageMessage::TasksPickDefaultProjectFile, &mut c);
    assert!(matches!(r, SettingsFollowUp::PickProjectFile(ref d) if d == "/"));
    page.update(SettingsPageMessage::TasksSetDefaultProjectFolder(Some("/p".to_string())), &mut c);
    let r = page.update(SettingsPageMessage::TasksPickDefaultProjectFile, &mut c);
    assert!(matches!(r, SettingsFollowUp::PickProjectFile(ref d) if d == "/p"));
}

#[test]
fn toggles_change_one_setting() {
    let mut c = config();
    let mut page = SettingsPage::new(&c);
    let r = page.update(SettingsPageMessage::TasksSetConfirmBeforeDelete(false), &mut c);
    assert!(matches!(r, SettingsFollowUp::SaveConfigThen(PageNotice::TasksConfirmBeforeDelete(false))));
    assert!(!c.tasks_config.confirm_before_delete);
    assert!(c.notes_config.confirm_before_delete);
    assert!(matches!(
        page.update(SettingsPageMessage::GallerySetRunFaceExtractionOnStart(true), &mut c),
        SettingsFollowUp::SaveConfig
    ));
    assert!(c.gallery_config.run_face_extraction_on_start);
    assert!(!c.gallery_config.run_face_recognition_on_start);
}

#[test]
fn server_address_from_the_editor() {
    let mut c = config();
    let mut page = SettingsPage::new(&c);
    assert!(matches!(
        page.update(SettingsPageMessage::SyncUpdateServerUrl("not a url".to_string()), &mut c),
        SettingsFollowUp::SaveConfig
    ));
    let r = page.update(SettingsPageMessage::SyncSetServerUrl, &mut c);
    assert!(matches!(r, SettingsFollowUp::ErrorToast(ref t) if t == "Please enter a valid URL"));
    assert_eq!(c.sync_config.server_url, String::new());
    page.update(SettingsPageMessage::SyncUpdateServerUrl("https://cloud.example".to_string()), &mut c);
    let r = page.update(SettingsPageMessage::SyncSetServerUrl, &mut c);
    assert!(matches!(r, SettingsFollowUp::SaveConfigThenToast(_)));
    assert_eq!(c.sync_config.server_url, "cloud.example".to_string());
}

#[test]
fn sync_folder_and_switch() {
    let mut c = config();
    let mut page = SettingsPage::new(&c);
    assert!(matches!(page.update(SettingsPageMessage::SyncSetDefaultFolder(None), &mut c), SettingsFollowUp::SaveConfig));
    assert_eq!(c.sync_config.default_data_storage_folder, "/home/ana/idirfein".to_string());
    let r = page.update(SettingsPageMessage::SyncSetDefaultFolder(Some("/data".to_string())), &mut c);
    assert!(matches!(r, SettingsFollowUp::SaveConfigThenToast(_)));
    assert_eq!(c.sync_config.default_data_storage_folder, "/data".to_string());
    page.update(SettingsPageMessage::SyncSetShouldSync(true), &mut c);
    assert!(c.sync_config.should_sync);
}

#[test]
fn shell_starts_on_default_page() {
    let shell = AppShell::new(Page::Gallery, true);
    assert_eq!(shell.current_page, Page::Gallery);
    assert!(!shell.is_setting_up_server);
    let first_run = AppShell::new(Page::Notes, false);
    assert!(first_run.is_setting_up_server);
}

#[test]
fn toasts_show_and_expire() {
    let mut shell = AppShell::new(Page::Notes, true);
    assert!(matches!(shell.update(AppEvent::ShowToast(false, "oops".to_string())), AppAction::ExpireToastLater));
    assert!(shell.show_toast);
    assert!(!shell.is_good_toast);
    assert_eq!(shell.toast_text, "oops".to_string());
    assert!(matches!(shell.update(AppEvent::ToastExpired), AppAction::Nothing));
    assert!(!shell.show_toast);
    assert!(shell.is_good_toast);
    assert_eq!(shell.toast_text, String::new());
}

#[test]
fn shell_pages_closing_and_server() {
    let mut shell = AppShell::new(Page::Notes, false);
    shell.update(AppEvent::ChangePage(Page::Tasks));
    assert_eq!(shell.current_page, Page::Tasks);
    assert!(matches!(shell.update(AppEvent::SendServerMessage("hi".to_string())), AppAction::ReportDisconnected));
    shell.update(AppEvent::ServerConnected);
    assert!(matches!(shell.update(AppEvent::SendServerMessage("hi".to_string())), AppAction::SendToServer(ref m) if m == "hi"));
    shell.update(AppEvent::ServerDisconnected);
    assert!(!shell.is_connected_to_server);
    assert!(matches!(shell.update(AppEvent::FinishSetup), AppAction::AdoptSetupConfigAndSave));
    assert!(!shell.is_setting_up_server);
    assert!(matches!(shell.update(AppEvent::SaveConfig), AppAction::SaveConfig));
    assert!(matches!(shell.update(AppEvent::CloseWindowRequest), AppAction::CloseAfterClosingTasks));
    assert!(shell.is_closing);
}
