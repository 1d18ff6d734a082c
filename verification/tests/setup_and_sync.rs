use idirfein::config::{AppConfig, SyncPageConfig};
use idirfein::setup_wizard::{
    add_new_user, confirm_local_access_details, confirm_remote_access_details, ignore_folder_id,
    is_valid_ip, set_existing_server_details, set_user_for_this_device, tests_connection_on_entry,
    unignore_folder_id, ServerConfig, ServerDetailsError, SetupWizardStep,
};
use idirfein::sync::{server_url_from_input, SyncPage, SyncPageAction, SyncPageMessage};

fn sync_config() -> SyncPageConfig {
    AppConfig::default_for_home("/home/ana").sync_config
}

#[test]
fn ip_addresses() {
    assert!(is_valid_ip("192.168.1.10"));
    assert!(is_valid_ip("0.0.0.0"));
    assert!(is_valid_ip("255.255.255.255"));
    assert!(is_valid_ip("001.02.3.004"));
    assert!(!is_valid_ip("256.1.1.1"));
    assert!(!is_valid_ip("1.1.1"));
    assert!(!is_valid_ip("1.1.1.1.1"));
    assert!(!is_valid_ip("1.1.1."));
    assert!(!is_valid_ip("1234.1.1.1"));
    assert!(!is_valid_ip("a.b.c.d"));
    assert!(!is_valid_ip(""));
    assert!(!is_valid_ip(" 1.1.1.1"));
}

#[test]
fn only_the_confirmation_step_tests_the_connection() {
    assert!(tests_connection_on_entry(SetupWizardStep::ConfirmConnection));
    assert!(!tests_connection_on_entry(SetupWizardStep::CloseWizard));
    assert!(!tests_connection_on_entry(SetupWizardStep::EnterServerUrlAndTotpSecret));
}

#[test]
fn default_server_config() {
    let c = ServerConfig::default();
    assert!(c.is_lan_only);
    assert!(c.users_list.is_empty());
    assert_eq!(c.static_ip, String::new());
}

#[test]
fn local_access_needs_valid_addresses() {
    let mut config = ServerConfig::default();
    let mut sync = sync_config();
    assert_eq!(
        confirm_local_access_details(&mut config, &mut sync),
        Err("Static IP can't be blank".to_string())
    );
    config.static_ip = "10.0.0.300".to_string();
    assert_eq!(
        confirm_local_access_details(&mut config, &mut sync),
        Err("Static IP has invalid format".to_string())
    );
    config.static_ip = "10.0.0.30".to_string();
    assert_eq!(
        confirm_local_access_details(&mut config, &mut sync),
        Err("Gateway IP can't be blank".to_string())
    );
    config.gateway_ip = "10.0.0".to_string();
    assert_eq!(
        confirm_local_access_details(&mut config, &mut sync),
        Err("Gateway IP has invalid format".to_string())
    );
    assert_eq!(sync.server_url, String::new());
    config.gateway_ip = "10.0.0.1".to_string();
    config.is_lan_only = false;
    assert_eq!(
        confirm_local_access_details(&mut config, &mut sync),
        Ok(SetupWizardStep::CreateServerUsers)
    );
    assert!(config.is_lan_only);
    assert_eq!(sync.server_url, "10.0.0.30:8000".to_string());
}

#[test]
fn remote_access_needs_every_detail() {
    let mut config = ServerConfig::default();
    config.static_ip = "192.168.0.5".to_string();
    config.gateway_ip = "192.168.0.1".to_string();
    assert_eq!(
        confirm_remote_access_details(&mut config),
        Err("DuckDNS domain can't be blank".to_string())
    );
    config.duckdns_domain = "home".to_string();
    assert_eq!(
        confirm_remote_access_details(&mut config),
        Err("DuckDNS token can't be blank".to_string())
    );
    config.duckdns_token = "tok".to_string();
    assert_eq!(
        confirm_remote_access_details(&mut config),
        Err("Certbot email can't be blank".to_string())
    );
    assert!(config.is_lan_only);
    config.certbot_email = "a@b.c".to_string();
    assert_eq!(confirm_remote_access_details(&mut config), Ok(SetupWizardStep::CreateServerUsers));
    assert!(!config.is_lan_only);
}

#[test]
fn remote_access_reports_address_problems_first() {
    let mut config = ServerConfig::default();
    config.duckdns_domain = "home".to_string();
    assert_eq!(
        confirm_remote_access_details(&mut config),
        Err("Static IP can't be blank".to_string())
    );
}

#[test]
fn users_are_added_once() {
    let mut config = ServerConfig::default();
    assert!(add_new_user(&mut config, "ana"));
    assert!(add_new_user(&mut config, "ben"));
    assert!(!add_new_user(&mut config, "ana"));
    assert!(!add_new_user(&mut config, ""));
    let names: Vec<&str> = config.users_list.iter().map(|(n, _)| n.as_str()).collect();
    assert_eq!(names, vec!["ana", "ben"]);
    assert_eq!(config.users_list[0].1.len(), 20);
    assert_ne!(config.users_list[0].1, config.users_list[1].1);
}

#[test]
fn existing_server_details() {
    let mut sync = sync_config();
    assert_eq!(
        set_existing_server_details(&mut sync, "", "ana", "c2VjcmV0"),
        Err(ServerDetailsError::MissingField)
    );
    assert_eq!(
        set_existing_server_details(&mut sync, "https://cloud.example", "ana", "not base64!"),
        Err(ServerDetailsError::BadSecret)
    );
    assert!(sync.client_credentials.is_none());
    assert!(!sync.should_sync);
    assert_eq!(
        set_existing_server_details(&mut sync, "https://cloud.example", "ana", "c2VjcmV0"),
        Ok(SetupWizardStep::ConfirmConnection)
    );
    assert_eq!(sync.server_url, "cloud.example".to_string());
    assert!(sync.should_sync);
    let creds = sync.client_credentials.as_ref().unwrap();
    assert_eq!(creds.client_id, "ana".to_string());
    assert_eq!(creds.client_secret, b"secret".to_vec());
}

#[test]
fn error_messages() {
    assert_eq!(ServerDetailsError::MissingField.message(), "Need to fill all fields".to_string());
    assert_eq!(
        ServerDetailsError::BadSecret.message(),
        "Secret token is incorrect, are you sure you typed it right?".to_string()
    );
}

#[test]
fn device_user() {
    let mut sync = sync_config();
    assert!(!set_user_for_this_device(&mut sync, "ben", "%%%"));
    assert!(sync.client_credentials.is_none());
    assert!(set_user_for_this_device(&mut sync, "ben", "AAEC"));
    let creds = sync.client_credentials.as_ref().unwrap();
    assert_eq!(creds.client_id, "ben".to_string());
    assert_eq!(creds.client_secret, vec![0u8, 1, 2]);
}

#[test]
fn ignoring_remote_folders() {
    let mut sync = sync_config();
    ignore_folder_id(&mut sync, "f1".to_string());
    ignore_folder_id(&mut sync, "f2".to_string());
    ignore_folder_id(&mut sync, "f3".to_string());
    unignore_folder_id(&mut sync, 1);
    assert_eq!(sync.ignored_remote_folder_ids, vec!["f1".to_string(), "f3".to_string()]);
}

#[test]
fn server_url_typed_in_settings() {
    assert_eq!(server_url_from_input("https://cloud.example:8000"), Some("cloud.example:8000".to_string()));
    assert_eq!(server_url_from_input("not a url"), None);
    assert_eq!(server_url_from_input(""), None);
}

fn page() -> SyncPage {
    SyncPage::new(
        vec!["old".to_string()],
        vec![("id-1".to_string(), "/docs".to_string()), ("id-2".to_string(), "/pics".to_string())],
    )
}

#[test]
fn sync_page_starts_disconnected() {
    let p = page();
    assert!(!p.is_connected_to_server);
    assert_eq!(p.ignore_list_editor_text, String::new());
    assert_eq!(p.ignore_string_list, vec!["old".to_string()]);
}

#[test]
fn ignore_list_editing() {
    let mut p = page();
    assert_eq!(p.update(SyncPageMessage::AddToIgnoreList), SyncPageAction::Nothing);
    assert_eq!(p.ignore_string_list.len(), 1);
    assert_eq!(p.update(SyncPageMessage::UpdateIgnoreListEditor("*.tmp".to_string())), SyncPageAction::Nothing);
    assert_eq!(p.update(SyncPageMessage::AddToIgnoreList), SyncPageAction::SaveIgnoreList);
    assert_eq!(p.ignore_string_list, vec!["old".to_string(), "*.tmp".to_string()]);
    assert_eq!(p.ignore_list_editor_text, String::new());
    assert_eq!(p.update(SyncPageMessage::DeleteFromIgnoreList(0)), SyncPageAction::SaveIgnoreList);
    assert_eq!(p.ignore_string_list, vec!["*.tmp".to_string()]);
}

#[test]
fn folder_list_editing() {
    let mut p = page();
    assert_eq!(p.update(SyncPageMessage::PickNewSyncListFolder), SyncPageAction::PickFolder);
    assert_eq!(p.update(SyncPageMessage::SetNewSyncListFolder(None)), SyncPageAction::Nothing);
    assert_eq!(p.folders_to_sync.len(), 2);
    assert_eq!(
        p.update(SyncPageMessage::SetNewSyncListFolder(Some("/music".to_string()))),
        SyncPageAction::SaveFolderList
    );
    assert_eq!(p.folders_to_sync.len(), 3);
    assert_eq!(p.folders_to_sync[2].1, "/music".to_string());
    assert_ne!(p.folders_to_sync[2].0, "id-1".to_string());
    let id: Vec<char> = p.folders_to_sync[2].0.chars().collect();
    assert_eq!(id.len(), 36);
    assert_eq!((id[8], id[13], id[18], id[23], id[14]), ('-', '-', '-', '-', '4'));
    assert!("89ab".contains(id[19]));
    assert!(id.iter().enumerate().all(|(i, c)| [8, 13, 18, 23].contains(&i) || "0123456789abcdef".contains(*c)));
    assert_eq!(
        p.update(SyncPageMessage::DeleteFromFolderList("id-1".to_string())),
        SyncPageAction::SaveFolderList
    );
    let paths: Vec<&str> = p.folders_to_sync.iter().map(|(_, f)| f.as_str()).collect();
    assert_eq!(paths, vec!["/pics", "/music"]);
    assert_eq!(p.ignore_string_list.last(), Some(&"id-1".to_string()));
    assert_eq!(
        p.update(SyncPageMessage::DeleteFromFolderList("missing".to_string())),
        SyncPageAction::SaveFolderList
    );
    assert_eq!(p.folders_to_sync.len(), 2);
}
