//! The passwords page: unlocking, editing and locking the password database, and what has to
//! be read, written or asked of the user as a result. Paths are held as their text.

use vstd::prelude::*;

use crate::config::PasswordPageConfig;
use crate::passwords::{
    create_database, create_database_outcome, delete_password_entry, entry_position, entry_saved,
    generate_password, is_printable_ascii, master_password_option, save_password_entry,
    CreateDatabaseOutcome, Password,
};
use crate::settings::opt_text;

verus! {

/// The state of the passwords page.
pub struct PasswordsPage {
    /// Whether the database is open.
    pub is_unlocked: bool,
    /// Whether the entries changed since the database was last written.
    pub is_dirty: bool,
    /// Whether a new database is being set up.
    pub is_creating_new_keepass_file: bool,
    /// Whether the list of entries is shown.
    pub show_sidebar: bool,
    /// Whether the last try to open the database failed.
    pub incorrect_password_entered: bool,
    /// The entries of the open database.
    pub passwords_list: Vec<Password>,
    /// The database file, if one was chosen.
    pub selected_keepass_file: Option<String>,
    /// The key file, if one was chosen.
    pub selected_key_file: Option<String>,
    /// The master password typed.
    pub master_password_field_text: String,
    /// The title being edited.
    pub current_title_text: String,
    /// The address being edited.
    pub current_url_text: String,
    /// The user name being edited.
    pub current_username_text: String,
    /// The password being edited.
    pub current_password_text: String,
    /// The master password typed again, when setting up a database.
    pub master_password_reentry_field_text: String,
    /// The filter on the entries' titles.
    pub current_passwords_list_filter: String,
    /// The entry being edited, if any.
    pub selected_password_entry: Option<Password>,
    /// Whether the master password is hidden.
    pub hide_master_password_entry: bool,
    /// Whether the edited password is hidden.
    pub hide_current_password_entry: bool,
    /// Whether the retyped master password is hidden.
    pub hide_master_password_reentry_entry: bool,
    /// Whether the two master passwords typed differ.
    pub passwords_dont_match: bool,
}

/// What the user or the database does on the passwords page.
pub enum PasswordsPageMessage {
    UpdatePasswordEntry,
    DeletePasswordEntry(u128),
    TryUnlock,
    Lock,
    RetrievedPasswordsList(Option<Vec<Password>>),
    SelectPassword(Option<Password>),
    UpdateMasterPasswordField(String),
    UpdateCurrentTitleText(String),
    UpdateCurrentUrlText(String),
    UpdateCurrentUsernameText(String),
    UpdateCurrentPasswordText(String),
    UpdateMasterPasswordReentryField(String),
    UpdatePasswordsFilter(String),
    SaveDatabaseToFile,
    ToggleShowSidebar,
    ToggleHideCurrentPassword,
    ToggleHideMasterPassword,
    ToggleHideMasterPasswordReentry,
    CopyValueToClipboard(String),
    PickDatabaseFile,
    SetDatabaseFile(Option<String>),
    StartCreatingNewKeepassFile,
    PickNewDatabasePath,
    CreateDatabase,
    CloseDatabase,
    PickKeyFile,
    SetKeyFile(Option<String>),
    LockAndDeselectDatabase,
    GeneratePassword,
}

/// What has to happen after the passwords page handled a message.
pub enum PasswordsAction {
    /// Nothing.
    Nothing,
    /// Read the entries of the database `file`, opened with the master password and key file
    /// given, and hand them back (or `None` when it cannot be opened).
    OpenDatabase { file: String, password: Option<String>, key_file: Option<String> },
    /// Write the page's entries to the database `target` with the master password and key file
    /// given; `report` tells whether the outcome is shown to the user.
    SaveDatabase {
        target: Option<String>,
        password: Option<String>,
        key_file: Option<String>,
        report: bool,
    },
    /// Put the text on the clipboard.
    CopyToClipboard(String),
    /// Ask the user for a database file to open.
    PickDatabaseFile,
    /// Ask the user where to create a database.
    PickNewDatabasePath,
    /// Ask the user for a key file.
    PickKeyFile,
}

/// The master password handed to the database: none when the field is empty.
pub open spec fn master_password(field: Seq<char>) -> Option<Seq<char>> {
    if field.len() == 0 {
        None
    } else {
        Some(field)
    }
}

/// The text of a field filled from the entry `p`, or empty when no entry is selected.
pub open spec fn entry_field(p: Option<Password>, field: spec_fn(Password) -> Seq<char>) -> Seq<
    char,
> {
    match p {
        Some(e) => field(e),
        None => Seq::empty(),
    }
}

/// The id of the entry being edited, if any.
pub open spec fn selected_id(p: Option<Password>) -> Option<u128> {
    match p {
        Some(e) => Some(e.id),
        None => None,
    }
}

/// `a` writes the database of page `p`, and `report` tells whether the outcome is shown.
pub open spec fn saves_database_of(p: PasswordsPage, a: PasswordsAction, report: bool) -> bool {
    a matches PasswordsAction::SaveDatabase { target, password, key_file, report: r } && {
        &&& opt_text(target) == opt_text(p.selected_keepass_file)
        &&& opt_text(password) == master_password(p.master_password_field_text@)
        &&& opt_text(key_file) == opt_text(p.selected_key_file)
        &&& r == report
    }
}

/// How handling `m` takes the page from `before` to `after` and what it asks for (`a`).
pub open spec fn passwords_step(
    before: PasswordsPage,
    after: PasswordsPage,
    m: PasswordsPageMessage,
    a: PasswordsAction,
) -> bool {
    match m {
        PasswordsPageMessage::UpdatePasswordEntry => {
            &&& a is Nothing
            &&& entry_saved(
                before.passwords_list@,
                after.passwords_list@,
                selected_id(before.selected_password_entry),
                before.current_title_text@,
                before.current_username_text@,
                before.current_url_text@,
                before.current_password_text@,
            )
            &&& match before.selected_password_entry {
                Some(_) => after == PasswordsPage {
                    passwords_list: after.passwords_list,
                    is_dirty: true,
                    ..before
                },
                None => {
                    &&& after == PasswordsPage {
                        passwords_list: after.passwords_list,
                        is_dirty: true,
                        current_title_text: after.current_title_text,
                        current_url_text: after.current_url_text,
                        current_username_text: after.current_username_text,
                        current_password_text: after.current_password_text,
                        ..before
                    }
                    &&& after.current_title_text@.len() == 0 && after.current_url_text@.len() == 0
                    &&& after.current_username_text@.len() == 0
                    &&& after.current_password_text@.len() == 0
                },
            }
        },
        PasswordsPageMessage::DeletePasswordEntry(id) => a is Nothing && match entry_position(
            before.passwords_list@,
            id,
        ) {
            Some(i) => {
                &&& after == PasswordsPage {
                    passwords_list: after.passwords_list,
                    is_dirty: true,
                    selected_password_entry: None,
                    ..before
                }
                &&& after.passwords_list@ == before.passwords_list@.remove(i)
            },
            None => {
                &&& after == PasswordsPage { passwords_list: after.passwords_list, ..before }
                &&& after.passwords_list@ == before.passwords_list@
            },
        },
        PasswordsPageMessage::TryUnlock => match before.selected_keepass_file {
            Some(f) => after == before && (a matches PasswordsAction::OpenDatabase {
                file,
                password,
                key_file,
            } && {
                &&& file@ == f@
                &&& opt_text(password) == master_password(before.master_password_field_text@)
                &&& opt_text(key_file) == opt_text(before.selected_key_file)
            }),
            None => {
                &&& after == PasswordsPage {
                    passwords_list: after.passwords_list,
                    is_unlocked: false,
                    ..before
                }
                &&& after.passwords_list@.len() == 0
                &&& a is Nothing
            },
        },
        PasswordsPageMessage::RetrievedPasswordsList(o) => a is Nothing && match o {
            Some(list) => after == PasswordsPage {
                is_unlocked: true,
                passwords_list: list,
                incorrect_password_entered: false,
                ..before
            },
            None => {
                &&& after == PasswordsPage {
                    passwords_list: after.passwords_list,
                    is_unlocked: false,
                    incorrect_password_entered: true,
                    ..before
                }
                &&& after.passwords_list@.len() == 0
            },
        },
        PasswordsPageMessage::SelectPassword(p) => {
            &&& a is Nothing
            &&& after == PasswordsPage {
                selected_password_entry: p,
                current_title_text: after.current_title_text,
                current_url_text: after.current_url_text,
                current_username_text: after.current_username_text,
                current_password_text: after.current_password_text,
                ..before
            }
            &&& after.current_title_text@ == entry_field(p, |e: Password| e.title@)
            &&& after.current_url_text@ == entry_field(p, |e: Password| e.url@)
            &&& after.current_username_text@ == entry_field(p, |e: Password| e.username@)
            &&& after.current_password_text@ == entry_field(p, |e: Password| e.password@)
        },
        PasswordsPageMessage::UpdateMasterPasswordField(s) => a is Nothing && after
            == PasswordsPage { master_password_field_text: s, ..before },
        PasswordsPageMessage::UpdateCurrentTitleText(s) => a is Nothing && after == PasswordsPage {
            current_title_text: s,
            ..before
        },
        PasswordsPageMessage::UpdateCurrentUrlText(s) => a is Nothing && after == PasswordsPage {
            current_url_text: s,
            ..before
        },
        PasswordsPageMessage::UpdateCurrentUsernameText(s) => a is Nothing && after
            == PasswordsPage { current_username_text: s, ..before },
        PasswordsPageMessage::UpdateCurrentPasswordText(s) => a is Nothing && after
            == PasswordsPage { current_password_text: s, ..before },
        PasswordsPageMessage::UpdateMasterPasswordReentryField(s) => a is Nothing && after
            == PasswordsPage { master_password_reentry_field_text: s, ..before },
        PasswordsPageMessage::UpdatePasswordsFilter(s) => a is Nothing && after == PasswordsPage {
            current_passwords_list_filter: s,
            ..before
        },
        PasswordsPageMessage::SaveDatabaseToFile => after == PasswordsPage {
            is_dirty: false,
            ..before
        } && saves_database_of(before, a, true),
        PasswordsPageMessage::Lock => if before.is_dirty {
            &&& after == PasswordsPage {
                is_unlocked: false,
                is_dirty: false,
                selected_key_file: None,
                master_password_field_text: after.master_password_field_text,
                ..before
            }
            &&& after.master_password_field_text@.len() == 0
            &&& saves_database_of(before, a, false)
        } else {
            after == PasswordsPage { is_unlocked: false, ..before } && a is Nothing
        },
        PasswordsPageMessage::ToggleShowSidebar => a is Nothing && after == PasswordsPage {
            show_sidebar: !before.show_sidebar,
            ..before
        },
        PasswordsPageMessage::ToggleHideCurrentPassword => a is Nothing && after
            == PasswordsPage {
            hide_current_password_entry: !before.hide_current_password_entry,
            ..before
        },
        PasswordsPageMessage::ToggleHideMasterPassword => a is Nothing && after == PasswordsPage {
            hide_master_password_entry: !before.hide_master_password_entry,
            ..before
        },
        PasswordsPageMessage::ToggleHideMasterPasswordReentry => a is Nothing && after
            == PasswordsPage {
            hide_master_password_reentry_entry: !before.hide_master_password_reentry_entry,
            ..before
        },
        PasswordsPageMessage::CopyValueToClipboard(s) => after == before && a
            == PasswordsAction::CopyToClipboard(s),
        PasswordsPageMessage::PickDatabaseFile => after == before && a is PickDatabaseFile,
        PasswordsPageMessage::SetDatabaseFile(f) => a is Nothing && after == PasswordsPage {
            selected_keepass_file: f,
            ..before
        },
        PasswordsPageMessage::StartCreatingNewKeepassFile => a is Nothing && after
            == PasswordsPage { is_creating_new_keepass_file: true, ..before },
        PasswordsPageMessage::PickNewDatabasePath => after == before && a is PickNewDatabasePath,
        PasswordsPageMessage::CreateDatabase => a is Nothing && match create_database_outcome(
            before.master_password_field_text@,
            before.master_password_reentry_field_text@,
            before.selected_key_file is Some,
        ) {
            CreateDatabaseOutcome::Unlocked => after == PasswordsPage {
                is_unlocked: true,
                passwords_dont_match: false,
                is_creating_new_keepass_file: false,
                ..before
            },
            CreateDatabaseOutcome::PasswordsDontMatch => after == PasswordsPage {
                passwords_dont_match: true,
                ..before
            },
            CreateDatabaseOutcome::Unchanged => after == before,
        },
        PasswordsPageMessage::CloseDatabase => a is Nothing && after == PasswordsPage {
            selected_keepass_file: None,
            ..before
        },
        PasswordsPageMessage::PickKeyFile => after == before && a is PickKeyFile,
        PasswordsPageMessage::SetKeyFile(f) => a is Nothing && after == PasswordsPage {
            selected_key_file: f,
            ..before
        },
        PasswordsPageMessage::LockAndDeselectDatabase => a is Nothing && after == PasswordsPage {
            selected_keepass_file: None,
            is_unlocked: false,
            is_creating_new_keepass_file: false,
            ..before
        },
        PasswordsPageMessage::GeneratePassword => {
            &&& a is Nothing
            &&& after == PasswordsPage { current_password_text: after.current_password_text, ..before }
            &&& after.current_password_text@.len() == 30
            &&& forall|i: int|
                0 <= i < 30 ==> is_printable_ascii(#[trigger] after.current_password_text@[i])
        },
    }
}

/// Which part of the page a message concerns: 1 the entries, 2 the database, 0 the fields.
pub open spec fn passwords_message_group(m: PasswordsPageMessage) -> u8 {
    match m {
        PasswordsPageMessage::UpdatePasswordEntry | PasswordsPageMessage::DeletePasswordEntry(_)
        | PasswordsPageMessage::SelectPassword(_) | PasswordsPageMessage::GeneratePassword => 1,
        PasswordsPageMessage::TryUnlock | PasswordsPageMessage::Lock
        | PasswordsPageMessage::RetrievedPasswordsList(_) | PasswordsPageMessage::SaveDatabaseToFile
        | PasswordsPageMessage::CreateDatabase => 2,
        _ => 0,
    }
}

fn passwords_group_of(m: &PasswordsPageMessage) -> (g: u8)
    ensures
        g == passwords_message_group(*m),
{
    match m {
        PasswordsPageMessage::UpdatePasswordEntry | PasswordsPageMessage::DeletePasswordEntry(_)
        | PasswordsPageMessage::SelectPassword(_) | PasswordsPageMessage::GeneratePassword => 1,
        PasswordsPageMessage::TryUnlock | PasswordsPageMessage::Lock
        | PasswordsPageMessage::RetrievedPasswordsList(_) | PasswordsPageMessage::SaveDatabaseToFile
        | PasswordsPageMessage::CreateDatabase => 2,
        _ => 0,
    }
}

fn clone_text_option(o: &Option<String>) -> (r: Option<String>)
    ensures
        opt_text(r) == opt_text(*o),
{
    match o {
        Some(s) => Some(s.clone()),
        None => None,
    }
}

impl PasswordsPage {
    /// The page with the settings `config`: the chosen database (if any) not yet opened,
    /// nothing typed, and the secrets hidden.
    pub fn new(config: &PasswordPageConfig) -> (r: PasswordsPage)
        ensures
            opt_text(r.selected_keepass_file) == opt_text(config.default_database),
            r.show_sidebar == config.show_sidebar_on_start,
            !r.is_unlocked && !r.is_dirty && !r.is_creating_new_keepass_file,
            !r.incorrect_password_entered && !r.passwords_dont_match,
            r.passwords_list@.len() == 0,
            r.selected_key_file is None && r.selected_password_entry is None,
            r.master_password_field_text@.len() == 0,
            r.master_password_reentry_field_text@.len() == 0,
            r.current_title_text@.len() == 0 && r.current_url_text@.len() == 0,
            r.current_username_text@.len() == 0 && r.current_password_text@.len() == 0,
            r.current_passwords_list_filter@.len() == 0,
            r.hide_master_password_entry && r.hide_current_password_entry,
            r.hide_master_password_reentry_entry,
    {
        PasswordsPage {
            is_unlocked: false,
            is_dirty: false,
            is_creating_new_keepass_file: false,
            show_sidebar: config.show_sidebar_on_start,
            incorrect_password_entered: false,
            passwords_list: Vec::new(),
            selected_keepass_file: clone_text_option(&config.default_database),
            selected_key_file: None,
            master_password_field_text: String::new(),
            current_title_text: String::new(),
            current_url_text: String::new(),
            current_username_text: String::new(),
            current_password_text: String::new(),
            master_password_reentry_field_text: String::new(),
            current_passwords_list_filter: String::new(),
            selected_password_entry: None,
            hide_master_password_entry: true,
            hide_current_password_entry: true,
            hide_master_password_reentry_entry: true,
            passwords_dont_match: false,
        }
    }

    /// What has to happen before the app closes: unsaved entries are written to the database,
    /// without a report.
    pub fn closing_task(&self) -> (a: PasswordsAction)
        ensures
            if self.is_dirty {
                saves_database_of(*self, a, false)
            } else {
                a is Nothing
            },
    {
        if self.is_dirty {
            PasswordsAction::SaveDatabase {
                target: clone_text_option(&self.selected_keepass_file),
                password: master_password_option(self.master_password_field_text.as_str()),
                key_file: clone_text_option(&self.selected_key_file),
                report: false,
            }
        } else {
            PasswordsAction::Nothing
        }
    }

    /// Handles `message` and says what has to happen next (see `passwords_step`).
    pub fn update(&mut self, message: PasswordsPageMessage) -> (a: PasswordsAction)
        ensures
            passwords_step(*old(self), *final(self), message, a),
    {
        let g = passwords_group_of(&message);
        if g == 1 {
            self.update_entries(message)
        } else if g == 2 {
            self.update_database(message)
        } else {
            self.update_fields(message)
        }
    }

    fn update_entries(&mut self, message: PasswordsPageMessage) -> (a: PasswordsAction)
        requires
            passwords_message_group(message) == 1,
        ensures
            passwords_step(*old(self), *final(self), message, a),
    {
        match message {
            PasswordsPageMessage::UpdatePasswordEntry => {
                self.is_dirty = true;
                let id = match &self.selected_password_entry {
                    Some(e) => Some(e.id),
                    None => None,
                };
                let title = self.current_title_text.clone();
                let username = self.current_username_text.clone();
                let url = self.current_url_text.clone();
                let password = self.current_password_text.clone();
                save_password_entry(&mut self.passwords_list, id, title, username, url, password);
                if id.is_none() {
                    self.current_title_text = String::new();
                    self.current_url_text = String::new();
                    self.current_username_text = String::new();
                    self.current_password_text = String::new();
                }
                PasswordsAction::Nothing
            },
            PasswordsPageMessage::DeletePasswordEntry(id) => {
                if delete_password_entry(&mut self.passwords_list, id) {
                    self.is_dirty = true;
                    self.selected_password_entry = None;
                }
                PasswordsAction::Nothing
            },
            PasswordsPageMessage::SelectPassword(p) => {
                let (title, url, username, password) = match &p {
                    Some(e) => (e.title.clone(), e.url.clone(), e.username.clone(), e.password.clone()),
                    None => (String::new(), String::new(), String::new(), String::new()),
                };
                self.selected_password_entry = p;
                self.current_title_text = title;
                self.current_url_text = url;
                self.current_username_text = username;
                self.current_password_text = password;
                PasswordsAction::Nothing
            },
            PasswordsPageMessage::GeneratePassword => {
                self.current_password_text = generate_password();
                PasswordsAction::Nothing
            },
            _ => PasswordsAction::Nothing,
        }
    }

    fn update_database(&mut self, message: PasswordsPageMessage) -> (a: PasswordsAction)
        requires
            passwords_message_group(message) == 2,
        ensures
            passwords_step(*old(self), *final(self), message, a),
    {
        match message {
            PasswordsPageMessage::TryUnlock => match &self.selected_keepass_file {
                Some(f) => PasswordsAction::OpenDatabase {
                    file: f.clone(),
                    password: master_password_option(self.master_password_field_text.as_str()),
                    key_file: clone_text_option(&self.selected_key_file),
                },
                None => {
                    self.passwords_list = Vec::new();
                    self.is_unlocked = false;
                    PasswordsAction::Nothing
                },
            },
            PasswordsPageMessage::RetrievedPasswordsList(o) => {
                match o {
                    Some(list) => {
                        self.is_unlocked = true;
                        self.passwords_list = list;
                        self.incorrect_password_entered = false;
                    },
                    None => {
                        self.passwords_list = Vec::new();
                        self.is_unlocked = false;
                        self.incorrect_password_entered = true;
                    },
                }
                PasswordsAction::Nothing
            },
            PasswordsPageMessage::SaveDatabaseToFile => {
                self.is_dirty = false;
                PasswordsAction::SaveDatabase {
                    target: clone_text_option(&self.selected_keepass_file),
                    password: master_password_option(self.master_password_field_text.as_str()),
                    key_file: clone_text_option(&self.selected_key_file),
                    report: true,
                }
            },
            PasswordsPageMessage::Lock => {
                self.is_unlocked = false;
                if self.is_dirty {
                    let password = master_password_option(self.master_password_field_text.as_str());
                    let key_file = clone_text_option(&self.selected_key_file);
                    self.master_password_field_text = String::new();
                    self.selected_key_file = None;
                    self.is_dirty = false;
                    PasswordsAction::SaveDatabase {
                        target: clone_text_option(&self.selected_keepass_file),
                        password,
                        key_file,
                        report: false,
                    }
                } else {
                    PasswordsAction::Nothing
                }
            },
            PasswordsPageMessage::CreateDatabase => {
                let outcome = create_database(
                    self.master_password_field_text.as_str(),
                    self.master_password_reentry_field_text.as_str(),
                    self.selected_key_file.is_some(),
                );
                match outcome {
                    CreateDatabaseOutcome::Unlocked => {
                        self.is_unlocked = true;
                        self.passwords_dont_match = false;
                        self.is_creating_new_keepass_file = false;
                    },
                    CreateDatabaseOutcome::PasswordsDontMatch => {
                        self.passwords_dont_match = true;
                    },
                    CreateDatabaseOutcome::Unchanged => {},
                }
                PasswordsAction::Nothing
            },
            _ => PasswordsAction::Nothing,
        }
    }

    fn update_fields(&mut self, message: PasswordsPageMessage) -> (a: PasswordsAction)
        requires
            passwords_message_group(message) == 0,
        ensures
            passwords_step(*old(self), *final(self), message, a),
    {
        match message {
            PasswordsPageMessage::UpdateMasterPasswordField(s) => {
                self.master_password_field_text = s;
                PasswordsAction::Nothing
            },
            PasswordsPageMessage::UpdateCurrentTitleText(s) => {
                self.current_title_text = s;
                PasswordsAction::Nothing
            },
            PasswordsPageMessage::UpdateCurrentUrlText(s) => {
                self.current_url_text = s;
                PasswordsAction::Nothing
            },
            PasswordsPageMessage::UpdateCurrentUsernameText(s) => {
                self.current_username_text = s;
                PasswordsAction::Nothing
            },
            PasswordsPageMessage::UpdateCurrentPasswordText(s) => {
                self.current_password_text = s;
                PasswordsAction::Nothing
            },
            PasswordsPageMessage::UpdateMasterPasswordReentryField(s) => {
                self.master_password_reentry_field_text = s;
                PasswordsAction::Nothing
            },
            PasswordsPageMessage::UpdatePasswordsFilter(s) => {
                self.current_passwords_list_filter = s;
                PasswordsAction::Nothing
            },
            PasswordsPageMessage::ToggleShowSidebar => {
                self.show_sidebar = !self.show_sidebar;
                PasswordsAction::Nothing
            },
            PasswordsPageMessage::ToggleHideCurrentPassword => {
                self.hide_current_password_entry = !self.hide_current_password_entry;
                PasswordsAction::Nothing
            },
            PasswordsPageMessage::ToggleHideMasterPassword => {
                self.hide_master_password_entry = !self.hide_master_password_entry;
                PasswordsAction::Nothing
            },
            PasswordsPageMessage::ToggleHideMasterPasswordReentry => {
                self.hide_master_password_reentry_entry = !self.hide_master_password_reentry_entry;
                PasswordsAction::Nothing
            },
            PasswordsPageMessage::CopyValueToClipboard(s) => PasswordsAction::CopyToClipboard(s),
            PasswordsPageMessage::PickDatabaseFile => PasswordsAction::PickDatabaseFile,
            PasswordsPageMessage::SetDatabaseFile(f) => {
                self.selected_keepass_file = f;
                PasswordsAction::Nothing
            },
            PasswordsPageMessage::StartCreatingNewKeepassFile => {
                self.is_creating_new_keepass_file = true;
                PasswordsAction::Nothing
            },
            PasswordsPageMessage::PickNewDatabasePath => PasswordsAction::PickNewDatabasePath,
            PasswordsPageMessage::CloseDatabase => {
                self.selected_keepass_file = None;
                PasswordsAction::Nothing
            },
            PasswordsPageMessage::PickKeyFile => PasswordsAction::PickKeyFile,
            PasswordsPageMessage::SetKeyFile(f) => {
                self.selected_key_file = f;
                PasswordsAction::Nothing
            },
            PasswordsPageMessage::LockAndDeselectDatabase => {
                self.selected_keepass_file = None;
                self.is_unlocked = false;
                self.is_creating_new_keepass_file = false;
                PasswordsAction::Nothing
            },
            _ => PasswordsAction::Nothing,
        }
    }
}


/// The message for `Ctrl` with the character key `c` on the passwords page, if any: a new
/// entry, the sidebar, and locking and closing the database.
pub open spec fn passwords_shortcut(c: char) -> Option<PasswordsPageMessage> {
    if c == 'n' || c == 'N' {
        Some(PasswordsPageMessage::SelectPassword(None))
    } else if c == 'b' || c == 'B' {
        Some(PasswordsPageMessage::ToggleShowSidebar)
    } else if c == 'l' || c == 'L' {
        Some(PasswordsPageMessage::LockAndDeselectDatabase)
    } else {
        None
    }
}

/// The message that `Ctrl` together with the character key `c` sends to the passwords page.
pub fn for_ctrl_shortcut(c: char) -> (m: Option<PasswordsPageMessage>)
    ensures
        m == passwords_shortcut(c),
{
    if c == 'n' || c == 'N' {
        Some(PasswordsPageMessage::SelectPassword(None))
    } else if c == 'b' || c == 'B' {
        Some(PasswordsPageMessage::ToggleShowSidebar)
    } else if c == 'l' || c == 'L' {
        Some(PasswordsPageMessage::LockAndDeselectDatabase)
    } else {
        None
    }
}

} // verus!
