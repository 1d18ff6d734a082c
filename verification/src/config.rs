//! The application's settings: the colour theme and each page's configuration.

use vstd::prelude::*;

use crate::page::Page;
use crate::path_order::{chars_before, lemma_chars_before_order};
use crate::paths::{join_path, path_joined};
use crate::text::str_eq;

verus! {

/// The built-in colour themes that the settings page offers.
#[derive(Debug, PartialEq, Eq, Structural, Clone, Copy)]
pub enum AppTheme {
    TokyoNightStorm,
    TokyoNightLight,
    TokyoNight,
    SolarizedLight,
    SolarizedDark,
    Oxocarbon,
    Nord,
    Nightfly,
    Moonfly,
    Light,
    KanagawaWave,
    KanagawaLotus,
    KanagawaDragon,
    GruvboxLight,
    GruvboxDark,
    Ferra,
    Dracula,
    Dark,
    CatppuccinMocha,
    CatppuccinMacchiato,
    CatppuccinLatte,
    CatppuccinFrappe,
}

/// The name that a theme is written under (its variant's name).
pub open spec fn theme_name(t: AppTheme) -> Seq<char> {
    match t {
        AppTheme::TokyoNightStorm => "TokyoNightStorm"@,
        AppTheme::TokyoNightLight => "TokyoNightLight"@,
        AppTheme::TokyoNight => "TokyoNight"@,
        AppTheme::SolarizedLight => "SolarizedLight"@,
        AppTheme::SolarizedDark => "SolarizedDark"@,
        AppTheme::Oxocarbon => "Oxocarbon"@,
        AppTheme::Nord => "Nord"@,
        AppTheme::Nightfly => "Nightfly"@,
        AppTheme::Moonfly => "Moonfly"@,
        AppTheme::Light => "Light"@,
        AppTheme::KanagawaWave => "KanagawaWave"@,
        AppTheme::KanagawaLotus => "KanagawaLotus"@,
        AppTheme::KanagawaDragon => "KanagawaDragon"@,
        AppTheme::GruvboxLight => "GruvboxLight"@,
        AppTheme::GruvboxDark => "GruvboxDark"@,
        AppTheme::Ferra => "Ferra"@,
        AppTheme::Dracula => "Dracula"@,
        AppTheme::Dark => "Dark"@,
        AppTheme::CatppuccinMocha => "CatppuccinMocha"@,
        AppTheme::CatppuccinMacchiato => "CatppuccinMacchiato"@,
        AppTheme::CatppuccinLatte => "CatppuccinLatte"@,
        AppTheme::CatppuccinFrappe => "CatppuccinFrappe"@,
    }
}

/// The themes that are recognised under their written names, in increasing order of those
/// names.
pub open spec fn named_themes() -> Seq<AppTheme> {
    seq![
        AppTheme::CatppuccinFrappe, AppTheme::CatppuccinLatte, AppTheme::CatppuccinMacchiato,
        AppTheme::CatppuccinMocha, AppTheme::Dark, AppTheme::Dracula, AppTheme::Ferra,
        AppTheme::GruvboxDark, AppTheme::GruvboxLight, AppTheme::KanagawaDragon,
        AppTheme::KanagawaLotus, AppTheme::KanagawaWave, AppTheme::Light, AppTheme::Moonfly,
        AppTheme::Nightfly, AppTheme::Nord, AppTheme::Oxocarbon, AppTheme::SolarizedDark,
        AppTheme::SolarizedLight, AppTheme::TokyoNight, AppTheme::TokyoNightStorm,
    ]
}

/// The first of `themes`, from position `i` on, whose written name is `s`.
pub open spec fn theme_named_from(themes: Seq<AppTheme>, s: Seq<char>, i: int) -> Option<AppTheme>
    decreases themes.len() - i,
{
    if i < 0 || i >= themes.len() {
        None
    } else if theme_name(themes[i]) == s {
        Some(themes[i])
    } else {
        theme_named_from(themes, s, i + 1)
    }
}

/// The stored name under which the light Tokyo Night theme is read back.
pub open spec fn light_tokyo_night_key() -> Seq<char> {
    "TokyoNightLight "@
}

/// The theme that a stored theme name is read back as, if any.
/// The light Tokyo Night theme is only recognised under its name followed by a space.
pub open spec fn theme_from_name(s: Seq<char>) -> Option<AppTheme> {
    if s == light_tokyo_night_key() {
        Some(AppTheme::TokyoNightLight)
    } else {
        theme_named_from(named_themes(), s, 0)
    }
}

/// The name the theme is stored under.
pub fn theme_to_string(t: AppTheme) -> (r: String)
    ensures
        r@ == theme_name(t),
{
    let s: &str = match t {
        AppTheme::TokyoNightStorm => "TokyoNightStorm",
        AppTheme::TokyoNightLight => "TokyoNightLight",
        AppTheme::TokyoNight => "TokyoNight",
        AppTheme::SolarizedLight => "SolarizedLight",
        AppTheme::SolarizedDark => "SolarizedDark",
        AppTheme::Oxocarbon => "Oxocarbon",
        AppTheme::Nord => "Nord",
        AppTheme::Nightfly => "Nightfly",
        AppTheme::Moonfly => "Moonfly",
        AppTheme::Light => "Light",
        AppTheme::KanagawaWave => "KanagawaWave",
        AppTheme::KanagawaLotus => "KanagawaLotus",
        AppTheme::KanagawaDragon => "KanagawaDragon",
        AppTheme::GruvboxLight => "GruvboxLight",
        AppTheme::GruvboxDark => "GruvboxDark",
        AppTheme::Ferra => "Ferra",
        AppTheme::Dracula => "Dracula",
        AppTheme::Dark => "Dark",
        AppTheme::CatppuccinMocha => "CatppuccinMocha",
        AppTheme::CatppuccinMacchiato => "CatppuccinMacchiato",
        AppTheme::CatppuccinLatte => "CatppuccinLatte",
        AppTheme::CatppuccinFrappe => "CatppuccinFrappe",
    };
    s.to_owned()
}

/// Reads a stored theme name back; unknown names give `None`.
pub fn theme_from_string(s: &str) -> (r: Option<AppTheme>)
    ensures
        r == theme_from_name(s@),
{
    proof {
        reveal_strlit("TokyoNightLight ");
    }
    if str_eq(s, "TokyoNightLight ") {
        return Some(AppTheme::TokyoNightLight);
    }
    let themes: [AppTheme; 21] = [
        AppTheme::CatppuccinFrappe, AppTheme::CatppuccinLatte, AppTheme::CatppuccinMacchiato,
        AppTheme::CatppuccinMocha, AppTheme::Dark, AppTheme::Dracula, AppTheme::Ferra,
        AppTheme::GruvboxDark, AppTheme::GruvboxLight, AppTheme::KanagawaDragon,
        AppTheme::KanagawaLotus, AppTheme::KanagawaWave, AppTheme::Light, AppTheme::Moonfly,
        AppTheme::Nightfly, AppTheme::Nord, AppTheme::Oxocarbon, AppTheme::SolarizedDark,
        AppTheme::SolarizedLight, AppTheme::TokyoNight, AppTheme::TokyoNightStorm,
    ];
    assert(themes@ =~= named_themes());
    let mut i: usize = 0;
    while i < 21
        invariant
            i <= 21,
            themes@ == named_themes(),
            s@ != light_tokyo_night_key(),
            theme_from_name(s@) == theme_named_from(named_themes(), s@, i as int),
        decreases 21 - i,
    {
        let name = theme_to_string(themes[i]);
        if str_eq(name.as_str(), s) {
            return Some(themes[i]);
        }
        i += 1;
    }
    None
}

/// The written names of `themes` increase from position `i` on.
pub open spec fn names_increase_from(themes: Seq<AppTheme>, i: int) -> bool
    decreases themes.len() - i,
{
    if i < 0 || i + 1 >= themes.len() {
        true
    } else {
        chars_before(theme_name(themes[i]), theme_name(themes[i + 1])) && names_increase_from(
            themes,
            i + 1,
        )
    }
}

proof fn lemma_named_themes_increase()
    ensures
        names_increase_from(named_themes(), 0),
{
    reveal_strlit("CatppuccinFrappe");
    reveal_strlit("CatppuccinLatte");
    reveal_strlit("CatppuccinMacchiato");
    reveal_strlit("CatppuccinMocha");
    reveal_strlit("Dark");
    reveal_strlit("Dracula");
    reveal_strlit("Ferra");
    reveal_strlit("GruvboxDark");
    reveal_strlit("GruvboxLight");
    reveal_strlit("KanagawaDragon");
    reveal_strlit("KanagawaLotus");
    reveal_strlit("KanagawaWave");
    reveal_strlit("Light");
    reveal_strlit("Moonfly");
    reveal_strlit("Nightfly");
    reveal_strlit("Nord");
    reveal_strlit("Oxocarbon");
    reveal_strlit("SolarizedDark");
    reveal_strlit("SolarizedLight");
    reveal_strlit("TokyoNight");
    reveal_strlit("TokyoNightStorm");
    reveal_with_fuel(names_increase_from, 22);
    reveal_with_fuel(chars_before, 12);
}

proof fn lemma_increase_from_later(themes: Seq<AppTheme>, m: int)
    requires
        names_increase_from(themes, 0),
        0 <= m,
    ensures
        names_increase_from(themes, m),
    decreases m,
{
    if m > 0 {
        lemma_increase_from_later(themes, m - 1);
    }
}

proof fn lemma_named_in_order(i: int, j: int)
    requires
        0 <= i < j < named_themes().len(),
    ensures
        chars_before(theme_name(named_themes()[i]), theme_name(named_themes()[j])),
    decreases j - i,
{
    let themes = named_themes();
    lemma_named_themes_increase();
    lemma_increase_from_later(themes, j - 1);
    if i < j - 1 {
        lemma_named_in_order(i, j - 1);
        lemma_chars_before_order(
            theme_name(themes[i]),
            theme_name(themes[j - 1]),
            theme_name(themes[j]),
        );
    }
}

/// Looking up the name of the theme at position `k` of the named themes, from position `i`
/// up to `k`, finds that theme.
proof fn lemma_named_lookup_from(k: int, i: int)
    requires
        0 <= i <= k < named_themes().len(),
    ensures
        theme_named_from(named_themes(), theme_name(named_themes()[k]), i) == Some(named_themes()[k]),
    decreases k - i,
{
    let themes = named_themes();
    if i < k {
        lemma_named_in_order(i, k);
        lemma_chars_before_order(theme_name(themes[i]), theme_name(themes[k]), theme_name(themes[k]));
        lemma_named_lookup_from(k, i + 1);
    }
}

proof fn lemma_named_lookup(k: int)
    requires
        0 <= k < named_themes().len(),
    ensures
        theme_named_from(named_themes(), theme_name(named_themes()[k]), 0) == Some(named_themes()[k]),
{
    lemma_named_lookup_from(k, 0);
}

/// A name that sorts strictly between the names at positions `k` and `k + 1` of the named
/// themes is not found from position `i` on.
proof fn lemma_named_absent_from(s: Seq<char>, k: int, i: int)
    requires
        0 <= k,
        k + 1 < named_themes().len(),
        chars_before(theme_name(named_themes()[k]), s),
        chars_before(s, theme_name(named_themes()[k + 1])),
        0 <= i,
    ensures
        theme_named_from(named_themes(), s, i) is None,
    decreases named_themes().len() - i,
{
    let themes = named_themes();
    if i < themes.len() {
        let n = theme_name(themes[i]);
        if i < k {
            lemma_named_in_order(i, k);
            lemma_chars_before_order(n, theme_name(themes[k]), s);
            lemma_chars_before_order(n, n, n);
        } else if i == k {
            lemma_chars_before_order(n, n, n);
        } else if i == k + 1 {
            lemma_chars_before_order(s, s, s);
        } else {
            lemma_named_in_order(k + 1, i);
            lemma_chars_before_order(s, theme_name(themes[k + 1]), n);
            lemma_chars_before_order(n, n, n);
        }
        lemma_named_absent_from(s, k, i + 1);
    }
}

/// Writing a theme's name and reading it back gives the same theme, for every theme but
/// the light Tokyo Night one, whose written name is not recognised.
pub proof fn lemma_theme_name_round_trip(t: AppTheme)
    ensures
        theme_from_name(theme_name(t)) == (if t == AppTheme::TokyoNightLight {
            None
        } else {
            Some(t)
        }),
{
    reveal_strlit("TokyoNight");
    reveal_strlit("TokyoNightLight");
    reveal_strlit("TokyoNightLight ");
    reveal_strlit("TokyoNightStorm");
    reveal_with_fuel(chars_before, 12);
    let themes = named_themes();
    let last = themes.len() - 2;
    assert(themes[last] == AppTheme::TokyoNight && themes[last + 1] == AppTheme::TokyoNightStorm);
    assert(chars_before("TokyoNight"@, light_tokyo_night_key()));
    assert(chars_before(light_tokyo_night_key(), "TokyoNightStorm"@));
    lemma_named_absent_from(light_tokyo_night_key(), last, 0);
    match t {
        AppTheme::CatppuccinFrappe => lemma_named_lookup(0),
        AppTheme::CatppuccinLatte => lemma_named_lookup(1),
        AppTheme::CatppuccinMacchiato => lemma_named_lookup(2),
        AppTheme::CatppuccinMocha => lemma_named_lookup(3),
        AppTheme::Dark => lemma_named_lookup(4),
        AppTheme::Dracula => lemma_named_lookup(5),
        AppTheme::Ferra => lemma_named_lookup(6),
        AppTheme::GruvboxDark => lemma_named_lookup(7),
        AppTheme::GruvboxLight => lemma_named_lookup(8),
        AppTheme::KanagawaDragon => lemma_named_lookup(9),
        AppTheme::KanagawaLotus => lemma_named_lookup(10),
        AppTheme::KanagawaWave => lemma_named_lookup(11),
        AppTheme::Light => lemma_named_lookup(12),
        AppTheme::Moonfly => lemma_named_lookup(13),
        AppTheme::Nightfly => lemma_named_lookup(14),
        AppTheme::Nord => lemma_named_lookup(15),
        AppTheme::Oxocarbon => lemma_named_lookup(16),
        AppTheme::SolarizedDark => lemma_named_lookup(17),
        AppTheme::SolarizedLight => lemma_named_lookup(18),
        AppTheme::TokyoNight => lemma_named_lookup(19),
        AppTheme::TokyoNightStorm => lemma_named_lookup(20),
        AppTheme::TokyoNightLight => {
            assert(chars_before("TokyoNight"@, "TokyoNightLight"@));
            assert(chars_before("TokyoNightLight"@, "TokyoNightStorm"@));
            assert("TokyoNightLight"@.len() != light_tokyo_night_key().len());
            lemma_named_absent_from(theme_name(t), last, 0);
        },
    }
}
/// The credentials this device uses to sign in to the sync server.
pub struct AuthCredentials {
    /// The user name on the server.
    pub client_id: String,
    /// The shared secret, decoded from base64.
    pub client_secret: Vec<u8>,
}

/// How often the folders are synchronised with the server.
#[derive(Debug, PartialEq, Eq, Structural, Clone, Copy)]
pub enum SyncFrequencySettings {
    /// When the app starts.
    SyncOnAppStart,
    /// When the app starts, then every twenty minutes.
    SyncOnAppStartAndEvery20Minutes,
    /// When the app starts, then hourly.
    SyncOnAppStartAndEveryHour,
    /// When the device starts, then every twenty minutes.
    SyncOnDeviceStartAndEvery20Minutes,
    /// When the device starts, then hourly.
    SyncOnDeviceStartAndEveryHour,
    /// Only when the user asks.
    SyncOnlyOnRequest,
}

/// Settings of the notes page. Paths are held as their text.
pub struct NotesPageConfig {
    /// Whether typing an opening bracket or quote adds the closing one.
    pub autocomplete_brackets_etc: bool,
    /// Whether Enter continues and ends markdown lists.
    pub autocomplete_lists: bool,
    /// Whether deleting a note asks first.
    pub confirm_before_delete: bool,
    /// The notes folder opened on start, if one was chosen.
    pub default_folder: Option<String>,
    /// Whether the text editor is shown on start.
    pub show_editor_on_start: bool,
    /// Whether the rendered preview is shown on start.
    pub show_markdown_on_start: bool,
    /// Whether the list of notes is shown on start.
    pub show_sidebar_on_start: bool,
}

impl NotesPageConfig {
    /// No folder chosen, and every option on.
    pub open spec fn is_default(&self) -> bool {
        &&& self.default_folder is None
        &&& self.show_sidebar_on_start && self.show_markdown_on_start && self.show_editor_on_start
        &&& self.confirm_before_delete
        &&& self.autocomplete_brackets_etc && self.autocomplete_lists
    }
}

impl Default for NotesPageConfig {
    fn default() -> (r: Self)
        ensures
            r.is_default(),
    {
        NotesPageConfig {
            autocomplete_brackets_etc: true,
            autocomplete_lists: true,
            confirm_before_delete: true,
            default_folder: None,
            show_editor_on_start: true,
            show_markdown_on_start: true,
            show_sidebar_on_start: true,
        }
    }
}

/// Settings of the passwords page.
pub struct PasswordPageConfig {
    /// The password database opened on start, if one was chosen.
    pub default_database: Option<String>,
    /// Whether the list of entries is shown on start.
    pub show_sidebar_on_start: bool,
}

impl PasswordPageConfig {
    /// No database chosen, and the list shown.
    pub open spec fn is_default(&self) -> bool {
        self.default_database is None && self.show_sidebar_on_start
    }
}

impl Default for PasswordPageConfig {
    fn default() -> (r: Self)
        ensures
            r.is_default(),
    {
        PasswordPageConfig { show_sidebar_on_start: true, default_database: None }
    }
}

/// Settings of the gallery page.
pub struct GalleryPageConfig {
    /// The picture folder opened on start, if one was chosen.
    pub default_folder: Option<String>,
    /// Whether faces are looked for when the gallery opens.
    pub run_face_extraction_on_start: bool,
    /// Whether faces are matched to people when the gallery opens.
    pub run_face_recognition_on_start: bool,
    /// Whether thumbnails are made when the gallery opens.
    pub run_thumbnail_generation_on_start: bool,
}

impl GalleryPageConfig {
    /// No folder chosen, and no work started on open.
    pub open spec fn is_default(&self) -> bool {
        &&& self.default_folder is None
        &&& !self.run_thumbnail_generation_on_start
        &&& !self.run_face_extraction_on_start
        &&& !self.run_face_recognition_on_start
    }
}

impl Default for GalleryPageConfig {
    fn default() -> (r: Self)
        ensures
            r.is_default(),
    {
        GalleryPageConfig {
            run_face_extraction_on_start: false,
            run_face_recognition_on_start: false,
            run_thumbnail_generation_on_start: false,
            default_folder: None,
        }
    }
}

/// Settings of the tasks page.
pub struct TaskPageConfig {
    /// Whether deleting a task asks first.
    pub confirm_before_delete: bool,
    /// The projects folder opened on start, if one was chosen.
    pub default_folder: Option<String>,
    /// The project opened on start, if one was chosen.
    pub default_project_file: Option<String>,
    /// Whether tasks are shown as a board rather than a list.
    pub kanban_task_view_is_default: bool,
    /// Whether a right click opens a task for editing.
    pub right_click_to_edit_task: bool,
    /// Whether the list of projects is shown on start.
    pub show_sidebar_on_start: bool,
    /// Whether the buttons that move a task between columns are shown.
    pub show_task_completion_toolbar: bool,
}

impl TaskPageConfig {
    /// Nothing chosen, the board view, the sidebar, confirmation and right-click editing on,
    /// and the completion buttons hidden.
    pub open spec fn is_default(&self) -> bool {
        &&& self.default_folder is None && self.default_project_file is None
        &&& self.kanban_task_view_is_default && self.show_sidebar_on_start
        &&& self.confirm_before_delete && self.right_click_to_edit_task
        &&& !self.show_task_completion_toolbar
    }
}

impl Default for TaskPageConfig {
    fn default() -> (r: Self)
        ensures
            r.is_default(),
    {
        TaskPageConfig {
            confirm_before_delete: true,
            default_folder: None,
            default_project_file: None,
            kanban_task_view_is_default: true,
            right_click_to_edit_task: true,
            show_sidebar_on_start: true,
            show_task_completion_toolbar: false,
        }
    }
}

/// Settings of the sync page.
pub struct SyncPageConfig {
    /// How this device signs in, once set up.
    pub client_credentials: Option<AuthCredentials>,
    /// Where synced data is kept on this device.
    pub default_data_storage_folder: String,
    /// The remote folders this device leaves alone.
    pub ignored_remote_folder_ids: Vec<String>,
    /// The server's address, without its scheme.
    pub server_url: String,
    /// Whether this device syncs at all.
    pub should_sync: bool,
    /// When syncing happens.
    pub sync_frequency_settings: SyncFrequencySettings,
}

/// The folder, inside the user's home folder, where synced data is kept by default.
pub open spec fn default_storage_folder(home: Seq<char>) -> Seq<char> {
    path_joined(home, "idirfein"@)
}

impl SyncPageConfig {
    /// No server, no credentials, nothing ignored, syncing off and only on request, with the
    /// data kept in the default folder of the home folder `home`.
    pub open spec fn is_default_for(&self, home: Seq<char>) -> bool {
        &&& self.server_url@ == Seq::<char>::empty()
        &&& self.default_data_storage_folder@ == default_storage_folder(home)
        &&& !self.should_sync
        &&& self.client_credentials is None
        &&& self.ignored_remote_folder_ids@ == Seq::<String>::empty()
        &&& self.sync_frequency_settings == SyncFrequencySettings::SyncOnlyOnRequest
    }

    /// The default sync settings for a user whose home folder is `home_dir`.
    pub fn default_for_home(home_dir: &str) -> (r: Self)
        ensures
            r.is_default_for(home_dir@),
    {
        SyncPageConfig {
            client_credentials: None,
            default_data_storage_folder: join_path(home_dir, "idirfein"),
            ignored_remote_folder_ids: Vec::new(),
            server_url: String::new(),
            should_sync: false,
            sync_frequency_settings: SyncFrequencySettings::SyncOnlyOnRequest,
        }
    }
}

/// All the application's settings.
pub struct AppConfig {
    /// The page shown when the app opens.
    pub default_page_on_open: Page,
    /// The gallery page's settings.
    pub gallery_config: GalleryPageConfig,
    /// The notes page's settings.
    pub notes_config: NotesPageConfig,
    /// The passwords page's settings.
    pub passwords_config: PasswordPageConfig,
    /// The sync page's settings.
    pub sync_config: SyncPageConfig,
    /// The tasks page's settings.
    pub tasks_config: TaskPageConfig,
    /// The stored name of the chosen theme.
    pub theme_string: String,
}

impl AppConfig {
    /// The stored name of the chosen theme.
    pub open spec fn theme_text(&self) -> Seq<char> {
        self.theme_string@
    }

    /// The default settings for a user whose home folder is `home_dir`: the dark
    /// Tokyo Night theme, the notes page on open, and each page's defaults.
    pub fn default_for_home(home_dir: &str) -> (r: Self)
        ensures
            r.theme_text() == theme_name(AppTheme::TokyoNightStorm),
            r.default_page_on_open == Page::Notes,
            r.notes_config.is_default(),
            r.passwords_config.is_default(),
            r.gallery_config.is_default(),
            r.tasks_config.is_default(),
            r.sync_config.is_default_for(home_dir@),
    {
        let sync_config = SyncPageConfig::default_for_home(home_dir);
        let tasks_config = TaskPageConfig::default();
        let gallery_config = GalleryPageConfig::default();
        let passwords_config = PasswordPageConfig::default();
        let notes_config = NotesPageConfig::default();
        AppConfig {
            theme_string: theme_to_string(AppTheme::TokyoNightStorm),
            default_page_on_open: Page::Notes,
            sync_config,
            tasks_config,
            gallery_config,
            passwords_config,
            notes_config,
        }
    }

    /// The stored theme name.
    pub fn theme_string(&self) -> (r: &str)
        ensures
            r@ == self.theme_text(),
    {
        self.theme_string.as_str()
    }

    /// The chosen theme, if its stored name is recognised.
    pub fn get_theme(&self) -> (r: Option<AppTheme>)
        ensures
            r == theme_from_name(self.theme_text()),
    {
        theme_from_string(self.theme_string.as_str())
    }

    /// Chooses `theme`, storing its name; nothing else changes.
    pub fn set_theme(&mut self, theme: AppTheme)
        ensures
            final(self).theme_text() == theme_name(theme),
            *final(self) == (AppConfig { theme_string: final(self).theme_string, ..*old(self) }),
    {
        self.theme_string = theme_to_string(theme);
    }

    /// Sets the page shown on start from the name the settings page offers
    /// (an unknown name selects the notes page).
    pub fn set_default_page_on_open(&mut self, page_name: &str)
        ensures
            *final(self) == (AppConfig {
                default_page_on_open: crate::page::page_from_name(page_name@),
                ..*old(self)
            }),
    {
        self.default_page_on_open = Page::from_setting_name(page_name);
    }
}

/// After choosing a theme, reading the theme back gives that theme, except for the light
/// Tokyo Night theme, which reads back as no theme.
pub proof fn lemma_set_then_get_theme(after: AppConfig, t: AppTheme)
    requires
        after.theme_text() == theme_name(t),
    ensures
        theme_from_name(after.theme_text()) == (if t == AppTheme::TokyoNightLight {
            None
        } else {
            Some(t)
        }),
{
    lemma_theme_name_round_trip(t);
}

} // verus!
