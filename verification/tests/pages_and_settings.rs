use idirfein::config::{theme_from_string, theme_to_string, AppConfig, AppTheme, SyncFrequencySettings};
use idirfein::file_manager::{FileManagerPage, FileManagerPageConfig};
use idirfein::page::{Page, SettingsTab};

#[test]
fn pages_are_listed_in_navigation_order() {
    let all = Page::get_all();
    assert_eq!(
        all,
        [Page::Settings, Page::Notes, Page::Passwords, Page::Tasks, Page::Sync, Page::Gallery]
    );
}

#[test]
fn page_names() {
    assert_eq!(Page::Settings.name(), "Settings");
    assert_eq!(Page::Passwords.name(), "Passwords");
    assert_eq!(Page::Sync.name(), "Sync");
    assert_eq!(Page::Gallery.name(), "Gallery");
    assert_eq!(Page::Notes.name(), "Notes");
    assert_eq!(Page::Tasks.name(), "Tasks");
    assert_eq!(Page::Gallery.to_display_string(), "Gallery".to_string());
}

#[test]
fn page_name_round_trips_through_setting() {
    for p in Page::get_all() {
        assert_eq!(Page::from_setting_name(p.name()), p);
    }
}

#[test]
fn unknown_setting_name_selects_notes() {
    assert_eq!(Page::from_setting_name("Calendar"), Page::Notes);
    assert_eq!(Page::from_setting_name(""), Page::Notes);
    assert_eq!(Page::from_setting_name("tasks"), Page::Notes);
}

#[test]
fn alt_shortcuts() {
    assert_eq!(Page::for_alt_shortcut('1'), Some(Page::Notes));
    assert_eq!(Page::for_alt_shortcut('2'), Some(Page::Tasks));
    assert_eq!(Page::for_alt_shortcut('3'), Some(Page::Passwords));
    assert_eq!(Page::for_alt_shortcut('4'), Some(Page::Sync));
    assert_eq!(Page::for_alt_shortcut('5'), Some(Page::Gallery));
    assert_eq!(Page::for_alt_shortcut('6'), Some(Page::Settings));
    assert_eq!(Page::for_alt_shortcut('7'), None);
    assert_eq!(Page::for_alt_shortcut('a'), None);
}

#[test]
fn settings_tabs() {
    let tabs = SettingsTab::get_all();
    assert_eq!(
        tabs,
        [
            SettingsTab::General,
            SettingsTab::Sync,
            SettingsTab::Gallery,
            SettingsTab::Passwords,
            SettingsTab::Notes,
            SettingsTab::Tasks
        ]
    );
    let names: Vec<&str> = tabs.iter().map(|t| t.name()).collect();
    assert_eq!(names, vec!["General", "Sync", "Gallery", "Passwords", "Notes", "Tasks"]);
}

#[test]
fn theme_names_round_trip() {
    let themes = [
        AppTheme::Dark,
        AppTheme::Nord,
        AppTheme::Ferra,
        AppTheme::Light,
        AppTheme::Dracula,
        AppTheme::Moonfly,
        AppTheme::Nightfly,
        AppTheme::Oxocarbon,
        AppTheme::TokyoNight,
        AppTheme::GruvboxDark,
        AppTheme::GruvboxLight,
        AppTheme::KanagawaWave,
        AppTheme::KanagawaLotus,
        AppTheme::SolarizedDark,
        AppTheme::KanagawaDragon,
        AppTheme::SolarizedLight,
        AppTheme::CatppuccinLatte,
        AppTheme::CatppuccinMocha,
        AppTheme::TokyoNightStorm,
        AppTheme::CatppuccinFrappe,
        AppTheme::CatppuccinMacchiato,
    ];
    for t in themes {
        assert_eq!(theme_from_string(theme_to_string(t).as_str()), Some(t));
    }
}

#[test]
fn theme_name_examples() {
    assert_eq!(theme_to_string(AppTheme::TokyoNightStorm), "TokyoNightStorm".to_string());
    assert_eq!(theme_to_string(AppTheme::GruvboxLight), "GruvboxLight".to_string());
    assert_eq!(theme_from_string("Nord"), Some(AppTheme::Nord));
    assert_eq!(theme_from_string("nord"), None);
    assert_eq!(theme_from_string(""), None);
}

#[test]
fn light_tokyo_night_does_not_read_back() {
    assert_eq!(theme_to_string(AppTheme::TokyoNightLight), "TokyoNightLight".to_string());
    assert_eq!(theme_from_string("TokyoNightLight"), None);
    assert_eq!(theme_from_string("TokyoNightLight "), Some(AppTheme::TokyoNightLight));
}

#[test]
fn default_settings() {
    let config = AppConfig::default_for_home("/home/ana");
    assert_eq!(config.theme_string(), "TokyoNightStorm");
    assert_eq!(config.get_theme(), Some(AppTheme::TokyoNightStorm));
    assert_eq!(config.default_page_on_open, Page::Notes);
    assert_eq!(config.sync_config.default_data_storage_folder, "/home/ana/idirfein".to_string());
    assert_eq!(config.sync_config.server_url, String::new());
    assert!(!config.sync_config.should_sync);
    assert!(config.sync_config.client_credentials.is_none());
    assert!(config.sync_config.ignored_remote_folder_ids.is_empty());
    assert_eq!(config.sync_config.sync_frequency_settings, SyncFrequencySettings::SyncOnlyOnRequest);
    assert!(config.notes_config.show_sidebar_on_start);
    assert!(config.tasks_config.kanban_task_view_is_default);
    assert!(config.tasks_config.confirm_before_delete);
    assert!(!config.tasks_config.show_task_completion_toolbar);
    assert!(config.passwords_config.show_sidebar_on_start);
    assert!(config.gallery_config.default_folder.is_none());
    assert!(!config.gallery_config.run_thumbnail_generation_on_start);
}

#[test]
fn set_then_get_theme() {
    let mut config = AppConfig::default_for_home("/home/ana");
    config.set_theme(AppTheme::Dracula);
    assert_eq!(config.theme_string(), "Dracula");
    assert_eq!(config.get_theme(), Some(AppTheme::Dracula));
    config.set_theme(AppTheme::TokyoNightLight);
    assert_eq!(config.get_theme(), None);
    assert_eq!(config.default_page_on_open, Page::Notes);
}

#[test]
fn set_default_page_from_name() {
    let mut config = AppConfig::default_for_home("/home/ana");
    config.set_default_page_on_open("Gallery");
    assert_eq!(config.default_page_on_open, Page::Gallery);
    config.set_default_page_on_open("Nowhere");
    assert_eq!(config.default_page_on_open, Page::Notes);
    assert_eq!(config.theme_string(), "TokyoNightStorm");
}

#[test]
fn stored_unknown_theme_gives_none() {
    let base = AppConfig::default_for_home("/h");
    let config = AppConfig {
        theme_string: "Solarised".to_string(),
        default_page_on_open: Page::Tasks,
        sync_config: base.sync_config,
        tasks_config: base.tasks_config,
        gallery_config: base.gallery_config,
        passwords_config: base.passwords_config,
        notes_config: base.notes_config,
    };
    assert_eq!(config.get_theme(), None);
    assert_eq!(config.default_page_on_open, Page::Tasks);
}

#[test]
fn file_manager_page_opens() {
    let config = FileManagerPageConfig::default();
    let _page = FileManagerPage::new(&config);
    let _other = FileManagerPage::default();
}
