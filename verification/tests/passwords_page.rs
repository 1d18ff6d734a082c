use idirfein::config::PasswordPageConfig;
use idirfein::passwords::Password;
use idirfein::passwords_page::{PasswordsAction, PasswordsPage, PasswordsPageMessage};

fn page_with_database() -> PasswordsPage {
    let config = PasswordPageConfig { default_database: Some("/db.kdbx".to_string()), show_sidebar_on_start: false };
    PasswordsPage::new(&config)
}

fn entry(id: u128, title: &str) -> Password {
    Password {
        id,
        title: title.to_string(),
        username: "u".to_string(),
        url: "https://x".to_string(),
        password: "p".to_string(),
    }
}

#[test]
fn page_opens_with_chosen_database_locked() {
    let page = page_with_database();
    assert_eq!(page.selected_keepass_file, Some("/db.kdbx".to_string()));
    assert!(!page.show_sidebar);
    assert!(!page.is_unlocked);
    assert!(page.hide_master_password_entry);
    assert!(page.passwords_list.is_empty());
}

#[test]
fn unlocking_asks_for_the_database() {
    let mut page = page_with_database();
    match page.update(PasswordsPageMessage::TryUnlock) {
        PasswordsAction::OpenDatabase { file, password, key_file } => {
            assert_eq!(file, "/db.kdbx".to_string());
            assert_eq!(password, None);
            assert_eq!(key_file, None);
        }
        _ => panic!("expected the database to be opened"),
    }
    page.update(PasswordsPageMessage::UpdateMasterPasswordField("secret".to_string()));
    page.update(PasswordsPageMessage::SetKeyFile(Some("/key".to_string())));
    match page.update(PasswordsPageMessage::TryUnlock) {
        PasswordsAction::OpenDatabase { password, key_file, .. } => {
            assert_eq!(password, Some("secret".to_string()));
            assert_eq!(key_file, Some("/key".to_string()));
        }
        _ => panic!("expected the database to be opened"),
    }
}

#[test]
fn unlocking_without_a_database_clears_the_list() {
    let mut page = PasswordsPage::new(&PasswordPageConfig { default_database: None, show_sidebar_on_start: true });
    page.update(PasswordsPageMessage::RetrievedPasswordsList(Some(vec![entry(1, "Mail")])));
    assert!(page.is_unlocked);
    assert!(matches!(page.update(PasswordsPageMessage::TryUnlock), PasswordsAction::Nothing));
    assert!(!page.is_unlocked);
    assert!(page.passwords_list.is_empty());
}

#[test]
fn wrong_password_is_reported() {
    let mut page = page_with_database();
    page.update(PasswordsPageMessage::RetrievedPasswordsList(None));
    assert!(!page.is_unlocked);
    assert!(page.incorrect_password_entered);
    page.update(PasswordsPageMessage::RetrievedPasswordsList(Some(vec![entry(1, "Mail")])));
    assert!(page.is_unlocked);
    assert!(!page.incorrect_password_entered);
    assert_eq!(page.passwords_list.len(), 1);
}

#[test]
fn editing_entries() {
    let mut page = page_with_database();
    page.update(PasswordsPageMessage::RetrievedPasswordsList(Some(vec![entry(1, "Mail"), entry(2, "Bank")])));
    page.update(PasswordsPageMessage::SelectPassword(Some(entry(2, "Bank"))));
    assert_eq!(page.current_title_text, "Bank".to_string());
    assert_eq!(page.current_username_text, "u".to_string());
    page.update(PasswordsPageMessage::UpdateCurrentUsernameText("me".to_string()));
    page.update(PasswordsPageMessage::UpdatePasswordEntry);
    assert!(page.is_dirty);
    assert_eq!(page.passwords_list[1].username, "me".to_string());
    assert_eq!(page.passwords_list[1].id, 2);
    page.update(PasswordsPageMessage::SelectPassword(None));
    assert_eq!(page.current_title_text, String::new());
    page.update(PasswordsPageMessage::UpdateCurrentTitleText("Shop".to_string()));
    page.update(PasswordsPageMessage::UpdatePasswordEntry);
    assert_eq!(page.passwords_list.len(), 3);
    assert_eq!(page.passwords_list[2].title, "Shop".to_string());
    assert_eq!(page.current_title_text, String::new());
}

#[test]
fn deleting_an_entry_deselects_it() {
    let mut page = page_with_database();
    page.update(PasswordsPageMessage::RetrievedPasswordsList(Some(vec![entry(1, "Mail"), entry(2, "Bank")])));
    page.update(PasswordsPageMessage::SelectPassword(Some(entry(1, "Mail"))));
    page.update(PasswordsPageMessage::DeletePasswordEntry(1));
    assert!(page.selected_password_entry.is_none());
    assert!(page.is_dirty);
    assert_eq!(page.passwords_list.len(), 1);
    assert_eq!(page.passwords_list[0].id, 2);
}

#[test]
fn saving_and_locking() {
    let mut page = page_with_database();
    page.update(PasswordsPageMessage::UpdateMasterPasswordField("pw".to_string()));
    page.update(PasswordsPageMessage::RetrievedPasswordsList(Some(vec![])));
    assert!(matches!(page.update(PasswordsPageMessage::Lock), PasswordsAction::Nothing));
    assert!(!page.is_unlocked);
    assert_eq!(page.master_password_field_text, "pw".to_string());
    page.update(PasswordsPageMessage::UpdateCurrentTitleText("New".to_string()));
    page.update(PasswordsPageMessage::UpdatePasswordEntry);
    match page.update(PasswordsPageMessage::Lock) {
        PasswordsAction::SaveDatabase { target, password, key_file, report } => {
            assert_eq!(target, Some("/db.kdbx".to_string()));
            assert_eq!(password, Some("pw".to_string()));
            assert_eq!(key_file, None);
            assert!(!report);
        }
        _ => panic!("expected a save"),
    }
    assert!(!page.is_dirty);
    assert_eq!(page.master_password_field_text, String::new());
    match page.update(PasswordsPageMessage::SaveDatabaseToFile) {
        PasswordsAction::SaveDatabase { password, report, .. } => {
            assert_eq!(password, None);
            assert!(report);
        }
        _ => panic!("expected a save"),
    }
}

#[test]
fn creating_a_new_database() {
    let mut page = page_with_database();
    page.update(PasswordsPageMessage::StartCreatingNewKeepassFile);
    page.update(PasswordsPageMessage::UpdateMasterPasswordField("a".to_string()));
    page.update(PasswordsPageMessage::UpdateMasterPasswordReentryField("b".to_string()));
    page.update(PasswordsPageMessage::CreateDatabase);
    assert!(page.passwords_dont_match);
    assert!(page.is_creating_new_keepass_file);
    page.update(PasswordsPageMessage::UpdateMasterPasswordReentryField("a".to_string()));
    page.update(PasswordsPageMessage::CreateDatabase);
    assert!(page.is_unlocked);
    assert!(!page.passwords_dont_match);
    assert!(!page.is_creating_new_keepass_file);
}

#[test]
fn other_requests() {
    let mut page = page_with_database();
    assert!(matches!(page.update(PasswordsPageMessage::PickDatabaseFile), PasswordsAction::PickDatabaseFile));
    assert!(matches!(page.update(PasswordsPageMessage::PickKeyFile), PasswordsAction::PickKeyFile));
    assert!(matches!(page.update(PasswordsPageMessage::PickNewDatabasePath), PasswordsAction::PickNewDatabasePath));
    assert!(matches!(
        page.update(PasswordsPageMessage::CopyValueToClipboard("x".to_string())),
        PasswordsAction::CopyToClipboard(ref s) if s == "x"
    ));
    page.update(PasswordsPageMessage::ToggleShowSidebar);
    assert!(page.show_sidebar);
    page.update(PasswordsPageMessage::ToggleHideCurrentPassword);
    assert!(!page.hide_current_password_entry);
    page.update(PasswordsPageMessage::GeneratePassword);
    assert_eq!(page.current_password_text.chars().count(), 30);
    page.update(PasswordsPageMessage::LockAndDeselectDatabase);
    assert!(page.selected_keepass_file.is_none());
    page.update(PasswordsPageMessage::SetDatabaseFile(Some("/other.kdbx".to_string())));
    page.update(PasswordsPageMessage::CloseDatabase);
    assert!(page.selected_keepass_file.is_none());
}
