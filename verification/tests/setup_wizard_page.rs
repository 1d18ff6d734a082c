use idirfein::config::SyncFrequencySettings;
use idirfein::setup_wizard::{SetupAction, SetupWizard, SetupWizardMessage, SetupWizardStep};

#[test]
fn going_to_the_confirmation_step_tests_the_connection() {
    let mut w = SetupWizard::new("/home/u");
    assert!(matches!(
        w.update(SetupWizardMessage::GoToStep(SetupWizardStep::ConfirmConnection)),
        SetupAction::Next(SetupWizardMessage::TestConnection)
    ));
    assert_eq!(w.current_step, SetupWizardStep::ConfirmConnection);
    assert!(matches!(
        w.update(SetupWizardMessage::GoToStep(SetupWizardStep::CloseWizard)),
        SetupAction::Nothing
    ));
}

#[test]
fn existing_server_details_are_checked_then_kept() {
    let mut w = SetupWizard::new("/home/u");
    match w.update(SetupWizardMessage::SetExistingServerDetails) {
        SetupAction::ErrorToast(t) => assert_eq!(t, "Need to fill all fields"),
        _ => panic!("expected a toast"),
    }
    w.update(SetupWizardMessage::UpdateServerUrlInputText("https://x.duckdns.org".to_string()));
    w.update(SetupWizardMessage::UpdateClientUsernameInputText("ann".to_string()));
    w.update(SetupWizardMessage::UpdateClientSecretInputText("!!".to_string()));
    match w.update(SetupWizardMessage::SetExistingServerDetails) {
        SetupAction::ErrorToast(t) => {
            assert_eq!(t, "Secret token is incorrect, are you sure you typed it right?")
        }
        _ => panic!("expected a toast"),
    }
    w.update(SetupWizardMessage::UpdateClientSecretInputText("AQID".to_string()));
    assert!(matches!(
        w.update(SetupWizardMessage::SetExistingServerDetails),
        SetupAction::Next(SetupWizardMessage::GoToStep(SetupWizardStep::ConfirmConnection))
    ));
    let sync = &w.work_in_progress_client_config.sync_config;
    assert_eq!(sync.server_url, "x.duckdns.org");
    assert!(sync.should_sync);
    assert_eq!(sync.client_credentials.as_ref().map(|c| c.client_secret.clone()), Some(vec![1, 2, 3]));
    match w.update(SetupWizardMessage::TestConnection) {
        SetupAction::TestConnection { server, client_id, secret } => {
            assert_eq!(server, "x.duckdns.org");
            assert_eq!(client_id, "ann");
            assert_eq!(secret, vec![1, 2, 3]);
        }
        _ => panic!("expected a connection test"),
    }
    w.update(SetupWizardMessage::SetRemoteFolderInfo(None));
    assert!(w.connection_has_been_attempted);
}

#[test]
fn users_are_added_once_each() {
    let mut w = SetupWizard::new("/home/u");
    w.update(SetupWizardMessage::AddNewUser);
    assert!(w.work_in_progress_server_config.users_list.is_empty());
    w.update(SetupWizardMessage::UpdateNewUserNameInputText("ann".to_string()));
    w.update(SetupWizardMessage::AddNewUser);
    assert_eq!(w.work_in_progress_server_config.users_list.len(), 1);
    assert_eq!(w.work_in_progress_server_config.users_list[0].1.len(), 20);
    assert!(w.new_user_name_input_text.is_empty());
    w.update(SetupWizardMessage::UpdateNewUserNameInputText("ann".to_string()));
    w.update(SetupWizardMessage::AddNewUser);
    assert_eq!(w.work_in_progress_server_config.users_list.len(), 1);
    assert_eq!(w.new_user_name_input_text, "ann");
}

#[test]
fn local_access_details_set_the_server_address() {
    let mut w = SetupWizard::new("/home/u");
    match w.update(SetupWizardMessage::ConfirmLocalAccessDetails) {
        SetupAction::ErrorToast(t) => assert_eq!(t, "Static IP can't be blank"),
        _ => panic!("expected a toast"),
    }
    w.update(SetupWizardMessage::UpdateServerStaticIp("192.168.1.9".to_string()));
    w.update(SetupWizardMessage::UpdateServerGatewayIp("192.168.1.256".to_string()));
    match w.update(SetupWizardMessage::ConfirmLocalAccessDetails) {
        SetupAction::ErrorToast(t) => assert_eq!(t, "Gateway IP has invalid format"),
        _ => panic!("expected a toast"),
    }
    w.update(SetupWizardMessage::UpdateServerGatewayIp("192.168.1.1".to_string()));
    assert!(matches!(
        w.update(SetupWizardMessage::ConfirmLocalAccessDetails),
        SetupAction::Next(SetupWizardMessage::GoToStep(SetupWizardStep::CreateServerUsers))
    ));
    assert_eq!(w.work_in_progress_client_config.sync_config.server_url, "192.168.1.9:8000");
    assert!(w.work_in_progress_server_config.is_lan_only);
}

#[test]
fn the_wizard_asks_for_every_remote_detail() {
    let mut w = SetupWizard::new("/home/u");
    w.update(SetupWizardMessage::UpdateServerStaticIp("10.0.0.2".to_string()));
    w.update(SetupWizardMessage::UpdateServerGatewayIp("10.0.0.1".to_string()));
    w.update(SetupWizardMessage::UpdateServerDuckDnsDomain("home".to_string()));
    match w.update(SetupWizardMessage::ConfirmRemoteAccessDetails) {
        SetupAction::ErrorToast(t) => assert_eq!(t, "DuckDNS token can't be blank"),
        _ => panic!("expected a toast"),
    }
    w.update(SetupWizardMessage::UpdateServerDuckDnsToken("tok".to_string()));
    w.update(SetupWizardMessage::UpdateServerCertbotEmail("a@b.c".to_string()));
    assert!(matches!(
        w.update(SetupWizardMessage::ConfirmRemoteAccessDetails),
        SetupAction::Next(SetupWizardMessage::GoToStep(SetupWizardStep::CreateServerUsers))
    ));
    assert!(!w.work_in_progress_server_config.is_lan_only);
}

#[test]
fn ignored_folders_and_sync_frequency() {
    let mut w = SetupWizard::new("/home/u");
    w.update(SetupWizardMessage::IgnoreFolderId("f1".to_string()));
    w.update(SetupWizardMessage::IgnoreFolderId("f2".to_string()));
    w.update(SetupWizardMessage::UnignoreFolderId(0));
    assert_eq!(w.work_in_progress_client_config.sync_config.ignored_remote_folder_ids, vec!["f2".to_string()]);
    w.update(SetupWizardMessage::SetSyncFrequency(SyncFrequencySettings::SyncOnlyOnRequest));
    assert!(matches!(
        w.work_in_progress_client_config.sync_config.sync_frequency_settings,
        SyncFrequencySettings::SyncOnlyOnRequest
    ));
    w.update(SetupWizardMessage::SetUserForThisDevice { username: "bo".to_string(), auth_token: "AQID".to_string() });
    assert_eq!(
        w.work_in_progress_client_config.sync_config.client_credentials.as_ref().map(|c| c.client_id.clone()),
        Some("bo".to_string())
    );
}
