//! The first-run setup wizard: choosing how to set up syncing, checking the server's network
//! details, creating the server's users and connecting this device to a server.

use vstd::prelude::*;

use crate::config::{AppConfig, AuthCredentials, SyncFrequencySettings, SyncPageConfig};
use crate::markdown_lists::{all_ascii_digits, digits_value};
use crate::text::{
    chars_of, last_occurrence, push_str, scheme_separator, split_at_char, str_eq, strip_url_scheme,
};

verus! {

/// How the user chose to set up syncing.
#[derive(Debug, PartialEq, Eq, Structural, Clone, Copy)]
pub enum SetupType {
    FullServerSetup,
    ConnectToExistingServerSetup,
    NoServerSetup,
    NoneSelectedYet,
}

/// A step of the setup wizard.
#[derive(Debug, PartialEq, Eq, Structural, Clone, Copy)]
pub enum SetupWizardStep {
    DecideWhetherToSetupServer,
    EnterServerUrlAndTotpSecret,
    ConfirmConnection,
    ChooseRemoteFoldersToSync,
    OptionalSetupRemoteAccess,
    CreateServerUsers,
    DownloadExtraAppData,
    CloseWizard,
    ListUsersChooseYours,
    ImagerSetupSteps,
    SshConnectionStepsRunScript,
}

/// Going to `step` tests the connection to the server when the step confirms it.
pub fn tests_connection_on_entry(step: SetupWizardStep) -> (b: bool)
    ensures
        b == (step == SetupWizardStep::ConfirmConnection),
{
    step == SetupWizardStep::ConfirmConnection
}

/// The server being set up. Each user appears once in `users_list`, with their secret.
pub struct ServerConfig {
    pub static_ip: String,
    pub users_list: Vec<(String, Vec<u8>)>,
    pub is_lan_only: bool,
    pub duckdns_domain: String,
    pub duckdns_token: String,
    pub certbot_email: String,
    pub gateway_ip: String,
}

/// No user name appears twice.
pub open spec fn unique_user_names(users: Seq<(String, Vec<u8>)>) -> bool {
    forall|i: int, j: int| 0 <= i < j < users.len() ==> users[i].0@ != users[j].0@
}

impl Default for ServerConfig {
    fn default() -> (r: Self)
        ensures
            r.static_ip@.len() == 0,
            r.users_list@.len() == 0,
            r.is_lan_only,
            r.duckdns_domain@.len() == 0,
            r.duckdns_token@.len() == 0,
            r.certbot_email@.len() == 0,
            r.gateway_ip@.len() == 0,
    {
        ServerConfig {
            static_ip: String::new(),
            users_list: Vec::new(),
            is_lan_only: true,
            duckdns_domain: String::new(),
            duckdns_token: String::new(),
            certbot_email: String::new(),
            gateway_ip: String::new(),
        }
    }
}

/// A part of an IP address: one to three ASCII digits writing at most 255.
pub open spec fn is_ip_part(p: Seq<char>) -> bool {
    1 <= p.len() <= 3 && all_ascii_digits(p) && digits_value(p) <= 255
}

/// An IPv4 address written as four parts separated by dots, each one to three digits for a
/// number up to 255.
pub open spec fn is_valid_ip_address(ip: Seq<char>) -> bool {
    let parts = split_at_char(ip, '.');
    parts.len() == 4 && forall|i: int| 0 <= i < 4 ==> is_ip_part(#[trigger] parts[i])
}

proof fn lemma_digits_value_below(s: Seq<char>)
    requires
        all_ascii_digits(s),
    ensures
        digits_value(s) < crate::text::pow10(s.len()),
    decreases s.len(),
{
    if s.len() > 0 {
        let init = s.drop_last();
        assert(all_ascii_digits(init)) by {
            assert forall|j: int| 0 <= j < init.len() implies '0' <= #[trigger] init[j] <= '9' by {
                assert(init[j] == s[j]);
            }
        }
        lemma_digits_value_below(init);
        assert('0' <= s[s.len() - 1] <= '9');
        let d = ((s.last() as u32) - 48) as nat;
        let v = digits_value(init);
        let p = crate::text::pow10(init.len());
        assert(v * 10 + d < p * 10) by (nonlinear_arith)
            requires
                v < p,
                d <= 9,
        ;
    }
}

fn is_ip_part_exec(p: &Vec<char>) -> (b: bool)
    ensures
        b == is_ip_part(p@),
{
    if p.len() < 1 || p.len() > 3 {
        return false;
    }
    let mut value: u32 = 0;
    let mut i: usize = 0;
    while i < p.len()
        invariant
            1 <= p.len() <= 3,
            i <= p.len(),
            all_ascii_digits(p@.take(i as int)),
            value == digits_value(p@.take(i as int)),
        decreases p.len() - i,
    {
        assert(p@.take(i + 1).drop_last() =~= p@.take(i as int));
        if !('0' <= p[i] && p[i] <= '9') {
            assert(!all_ascii_digits(p@)) by {
                assert(!('0' <= p@[i as int] <= '9'));
            }
            return false;
        }
        proof {
            assert forall|j: int| 0 <= j < i + 1 implies '0' <= #[trigger] p@.take(i + 1)[j]
                <= '9' by {
                if j < i {
                    assert(p@.take(i + 1)[j] == p@.take(i as int)[j]);
                }
            }
            lemma_digits_value_below(p@.take(i as int));
            assert(crate::text::pow10(i as nat) <= 100) by {
                reveal_with_fuel(crate::text::pow10, 3);
            }
        }
        value = value * 10 + ((p[i] as u32) - 48);
        i += 1;
    }
    assert(p@.take(p.len() as int) =~= p@);
    value <= 255
}

/// Whether `ip` is a valid IPv4 address.
pub fn is_valid_ip(ip: &str) -> (b: bool)
    ensures
        b == is_valid_ip_address(ip@),
{
    let cs = chars_of(ip);
    let mut parts: Vec<Vec<char>> = Vec::new();
    let mut current: Vec<char> = Vec::new();
    let mut i: usize = 0;
    while i < cs.len()
        invariant
            i <= cs.len(),
            cs@ == ip@,
            parts@.map_values(|v: Vec<char>| v@).push(current@) == split_at_char(
                cs@.take(i as int),
                '.',
            ),
        decreases cs.len() - i,
    {
        assert(cs@.take(i + 1).drop_last() =~= cs@.take(i as int));
        let ghost before = parts@.map_values(|v: Vec<char>| v@).push(current@);
        if cs[i] == '.' {
            let done = current;
            parts.push(done);
            current = Vec::new();
            assert(parts@.map_values(|v: Vec<char>| v@).push(current@) =~= before.push(seq![]));
        } else {
            current.push(cs[i]);
            assert(parts@.map_values(|v: Vec<char>| v@).push(current@) =~= before.update(
                before.len() - 1,
                before.last().push(cs@[i as int]),
            ));
        }
        i += 1;
    }
    assert(cs@.take(cs.len() as int) =~= cs@);
    let ghost all = parts@.map_values(|v: Vec<char>| v@).push(current@);
    if parts.len() != 3 {
        return false;
    }
    let ok = is_ip_part_exec(&parts[0]) && is_ip_part_exec(&parts[1]) && is_ip_part_exec(&parts[2])
        && is_ip_part_exec(&current);
    proof {
        assert(all[0] == parts@[0]@);
        assert(all[1] == parts@[1]@);
        assert(all[2] == parts@[2]@);
        assert(all[3] == current@);
        if ok {
            assert forall|k: int| 0 <= k < 4 implies is_ip_part(#[trigger] all[k]) by {}
        }
    }
    ok
}

/// The first problem with the static and gateway IP addresses, if any.
pub open spec fn ip_problem(static_ip: Seq<char>, gateway_ip: Seq<char>) -> Option<Seq<char>> {
    if static_ip.len() == 0 {
        Some("Static IP can't be blank"@)
    } else if !is_valid_ip_address(static_ip) {
        Some("Static IP has invalid format"@)
    } else if gateway_ip.len() == 0 {
        Some("Gateway IP can't be blank"@)
    } else if !is_valid_ip_address(gateway_ip) {
        Some("Gateway IP has invalid format"@)
    } else {
        None
    }
}

/// The first problem with the details for reaching the server from outside the local
/// network, if any.
pub open spec fn remote_access_problem(c: ServerConfig) -> Option<Seq<char>> {
    if ip_problem(c.static_ip@, c.gateway_ip@) is Some {
        ip_problem(c.static_ip@, c.gateway_ip@)
    } else if c.duckdns_domain@.len() == 0 {
        Some("DuckDNS domain can't be blank"@)
    } else if c.duckdns_token@.len() == 0 {
        Some("DuckDNS token can't be blank"@)
    } else if c.certbot_email@.len() == 0 {
        Some("Certbot email can't be blank"@)
    } else {
        None
    }
}

fn is_empty_str(s: &str) -> (b: bool)
    ensures
        b == (s@.len() == 0),
{
    chars_of(s).len() == 0
}

fn check_ips(static_ip: &str, gateway_ip: &str) -> (r: Option<String>)
    ensures
        match ip_problem(static_ip@, gateway_ip@) {
            Some(m) => r matches Some(s) && s@ == m,
            None => r is None,
        },
{
    if is_empty_str(static_ip) {
        return Some("Static IP can't be blank".to_owned());
    }
    if !is_valid_ip(static_ip) {
        return Some("Static IP has invalid format".to_owned());
    }
    if is_empty_str(gateway_ip) {
        return Some("Gateway IP can't be blank".to_owned());
    }
    if !is_valid_ip(gateway_ip) {
        return Some("Gateway IP has invalid format".to_owned());
    }
    None
}

/// Confirms the details for reaching the server from outside the local network. When they
/// are complete the server is no longer local-only and the wizard goes on to creating users;
/// otherwise the first problem is reported and nothing changes.
pub fn confirm_remote_access_details(config: &mut ServerConfig) -> (r: Result<
    SetupWizardStep,
    String,
>)
    ensures
        match remote_access_problem(*old(config)) {
            Some(m) => (r matches Err(e) && e@ == m) && *final(config) == *old(config),
            None => {
                &&& r == Ok::<SetupWizardStep, String>(SetupWizardStep::CreateServerUsers)
                &&& *final(config) == (ServerConfig { is_lan_only: false, ..*old(config) })
            },
        },
{
    if let Some(m) = check_ips(config.static_ip.as_str(), config.gateway_ip.as_str()) {
        return Err(m);
    }
    if is_empty_str(config.duckdns_domain.as_str()) {
        return Err("DuckDNS domain can't be blank".to_owned());
    }
    if is_empty_str(config.duckdns_token.as_str()) {
        return Err("DuckDNS token can't be blank".to_owned());
    }
    if is_empty_str(config.certbot_email.as_str()) {
        return Err("Certbot email can't be blank".to_owned());
    }
    config.is_lan_only = false;
    Ok(SetupWizardStep::CreateServerUsers)
}

/// The port the server listens on, after the server's address.
pub open spec fn local_server_url(static_ip: Seq<char>) -> Seq<char> {
    static_ip + ":8000"@
}

/// Confirms the server's local network details. When the IP addresses are valid the server is
/// local-only, this device syncs with it at its static IP on port 8000, and the wizard goes on
/// to creating users; otherwise the first problem is reported and nothing changes.
pub fn confirm_local_access_details(config: &mut ServerConfig, sync: &mut SyncPageConfig) -> (r:
    Result<SetupWizardStep, String>)
    ensures
        match ip_problem(old(config).static_ip@, old(config).gateway_ip@) {
            Some(m) => {
                &&& r matches Err(e) && e@ == m
                &&& *final(config) == *old(config)
                &&& *final(sync) == *old(sync)
            },
            None => {
                &&& r == Ok::<SetupWizardStep, String>(SetupWizardStep::CreateServerUsers)
                &&& *final(config) == (ServerConfig { is_lan_only: true, ..*old(config) })
                &&& *final(sync) == (SyncPageConfig { server_url: final(sync).server_url, ..*old(sync) })
                &&& final(sync).server_url@ == local_server_url(old(config).static_ip@)
            },
        },
{
    if let Some(m) = check_ips(config.static_ip.as_str(), config.gateway_ip.as_str()) {
        return Err(m);
    }
    config.is_lan_only = true;
    let mut url = String::new();
    push_str(&mut url, config.static_ip.as_str());
    push_str(&mut url, ":8000");
    sync.server_url = url;
    Ok(SetupWizardStep::CreateServerUsers)
}

/// 20 random bytes from `totp_rs::Secret::generate_secret`, as `Secret::to_bytes` gives them
/// (the secret is generated raw, so they are its bytes). Nothing is stated of their values.
#[verifier::external_body]
fn new_user_secret() -> (secret: Vec<u8>)
    ensures
        secret@.len() == 20,
{
    totp_rs::Secret::generate_secret().to_bytes().unwrap_or_default()
}

/// The position of the user called `name`, if any.
pub open spec fn user_position(users: Seq<(String, Vec<u8>)>, name: Seq<char>) -> Option<int> {
    if exists|i: int| 0 <= i < users.len() && users[i].0@ == name {
        Some(choose|i: int| 0 <= i < users.len() && users[i].0@ == name)
    } else {
        None
    }
}

/// Adds a user called `name` with a new random secret, unless the name is empty or taken.
/// Returns whether the user was added.
pub fn add_new_user(config: &mut ServerConfig, name: &str) -> (added: bool)
    requires
        unique_user_names(old(config).users_list@),
    ensures
        unique_user_names(final(config).users_list@),
        added == (name@.len() > 0 && user_position(old(config).users_list@, name@) is None),
        added ==> {
            &&& final(config).users_list@.len() == old(config).users_list@.len() + 1
            &&& final(config).users_list@.take(old(config).users_list@.len() as int) == old(config).users_list@
            &&& final(config).users_list@.last().0@ == name@
            &&& final(config).users_list@.last().1@.len() == 20
        },
        !added ==> *final(config) == *old(config),
        *final(config) == (ServerConfig { users_list: final(config).users_list, ..*old(config) }),
{
    if is_empty_str(name) {
        return false;
    }
    let mut i: usize = 0;
    while i < config.users_list.len()
        invariant
            i <= config.users_list.len(),
            config.users_list@ == old(config).users_list@,
            unique_user_names(old(config).users_list@),
            forall|j: int| 0 <= j < i ==> config.users_list@[j].0@ != name@,
        decreases config.users_list.len() - i,
    {
        if str_eq(config.users_list[i].0.as_str(), name) {
            assert(config.users_list@[i as int].0@ == name@);
            return false;
        }
        i += 1;
    }
    let secret = new_user_secret();
    config.users_list.push((name.to_owned(), secret));
    assert(config.users_list@.take(old(config).users_list@.len() as int) =~= old(config).users_list@);
    true
}

/// What `base64`'s standard engine decodes `s` to, if `s` is valid standard base64.
pub uninterp spec fn base64_decoded(s: Seq<char>) -> Option<Seq<u8>>;

/// Decodes `s` with `base64::prelude::BASE64_STANDARD`; the outcome is named `base64_decoded`.
#[verifier::external_body]
fn decode_base64(s: &str) -> (r: Option<Vec<u8>>)
    ensures
        match r {
            Some(v) => base64_decoded(s@) == Some(v@),
            None => base64_decoded(s@) is None,
        },
{
    base64::Engine::decode(&base64::prelude::BASE64_STANDARD, s).ok()
}

/// The server address kept for a URL typed by the user: what follows its last `://`.
pub open spec fn server_address(url: Seq<char>) -> Seq<char> {
    match last_occurrence(url, scheme_separator()) {
        Some(i) => url.skip(i + 3),
        None => url,
    }
}

/// Why the details of an existing server were refused.
#[derive(Debug, PartialEq, Eq, Structural, Clone, Copy)]
pub enum ServerDetailsError {
    /// A field is empty.
    MissingField,
    /// The secret is not valid base64.
    BadSecret,
}

impl ServerDetailsError {
    /// The message shown for the error.
    pub fn message(&self) -> (r: String)
        ensures
            r@ == server_details_message(*self),
    {
        match self {
            ServerDetailsError::MissingField => "Need to fill all fields".to_owned(),
            ServerDetailsError::BadSecret => "Secret token is incorrect, are you sure you typed it right?".to_owned(),
        }
    }
}

/// The message shown for a refused server's details.
pub open spec fn server_details_message(e: ServerDetailsError) -> Seq<char> {
    match e {
        ServerDetailsError::MissingField => "Need to fill all fields"@,
        ServerDetailsError::BadSecret => "Secret token is incorrect, are you sure you typed it right?"@,
    }
}

/// Takes the details of an existing server: its URL, this device's user name and the
/// user's secret in base64. All must be filled in and the secret must decode; then this device
/// syncs with the server (at the address after the URL's scheme) as that user, and the wizard
/// goes on to confirming the connection. Otherwise nothing changes.
pub fn set_existing_server_details(
    sync: &mut SyncPageConfig,
    server_url: &str,
    username: &str,
    secret: &str,
) -> (r: Result<SetupWizardStep, ServerDetailsError>)
    ensures
        (server_url@.len() == 0 || username@.len() == 0 || secret@.len() == 0) ==> r == Err::<
            SetupWizardStep,
            ServerDetailsError,
        >(ServerDetailsError::MissingField) && *final(sync) == *old(sync),
        (server_url@.len() > 0 && username@.len() > 0 && secret@.len() > 0 && base64_decoded(
            secret@,
        ) is None) ==> r == Err::<SetupWizardStep, ServerDetailsError>(
            ServerDetailsError::BadSecret,
        ) && *final(sync) == *old(sync),
        (server_url@.len() > 0 && username@.len() > 0 && secret@.len() > 0 && base64_decoded(
            secret@,
        ) is Some) ==> {
            &&& r == Ok::<SetupWizardStep, ServerDetailsError>(SetupWizardStep::ConfirmConnection)
            &&& *final(sync) == (SyncPageConfig {
                server_url: final(sync).server_url,
                should_sync: true,
                client_credentials: final(sync).client_credentials,
                ..*old(sync)
            })
            &&& final(sync).server_url@ == server_address(server_url@)
            &&& final(sync).client_credentials matches Some(c) && c.client_id@ == username@
                && Some(c.client_secret@) == base64_decoded(secret@)
        },
{
    if is_empty_str(server_url) || is_empty_str(username) || is_empty_str(secret) {
        return Err(ServerDetailsError::MissingField);
    }
    match decode_base64(secret) {
        Some(decoded) => {
            sync.server_url = strip_url_scheme(server_url);
            sync.should_sync = true;
            sync.client_credentials = Some(
                AuthCredentials { client_id: username.to_owned(), client_secret: decoded },
            );
            Ok(SetupWizardStep::ConfirmConnection)
        },
        None => Err(ServerDetailsError::BadSecret),
    }
}

/// Chooses the user this device signs in as: when `auth_token` is valid base64 the device's
/// credentials become that user and the decoded token; otherwise nothing changes.
pub fn set_user_for_this_device(sync: &mut SyncPageConfig, username: &str, auth_token: &str) -> (set:
    bool)
    ensures
        set == base64_decoded(auth_token@) is Some,
        set ==> (final(sync).client_credentials matches Some(c) && c.client_id@ == username@
            && Some(c.client_secret@) == base64_decoded(auth_token@)),
        !set ==> *final(sync) == *old(sync),
        *final(sync) == (SyncPageConfig {
            client_credentials: final(sync).client_credentials,
            ..*old(sync)
        }),
{
    match decode_base64(auth_token) {
        Some(decoded) => {
            sync.client_credentials = Some(
                AuthCredentials { client_id: username.to_owned(), client_secret: decoded },
            );
            true
        },
        None => false,
    }
}

/// Adds a remote folder id to those this device does not sync.
pub fn ignore_folder_id(sync: &mut SyncPageConfig, id: String)
    ensures
        final(sync).ignored_remote_folder_ids@ == old(sync).ignored_remote_folder_ids@.push(id),
        *final(sync) == (SyncPageConfig {
            ignored_remote_folder_ids: final(sync).ignored_remote_folder_ids,
            ..*old(sync)
        }),
{
    sync.ignored_remote_folder_ids.push(id);
}

/// Syncs again the ignored remote folder at position `index` of the ignore list.
pub fn unignore_folder_id(sync: &mut SyncPageConfig, index: usize)
    requires
        index < old(sync).ignored_remote_folder_ids@.len(),
    ensures
        final(sync).ignored_remote_folder_ids@ == old(sync).ignored_remote_folder_ids@.remove(
            index as int,
        ),
        *final(sync) == (SyncPageConfig {
            ignored_remote_folder_ids: final(sync).ignored_remote_folder_ids,
            ..*old(sync)
        }),
{
    let _removed = sync.ignored_remote_folder_ids.remove(index);
}


/// How far the download of the app's extra data has got.
pub enum SetupProgressBarValue {
    WaitingToStart,
    /// This many files of so many were downloaded.
    DownloadingFile(u32, u32),
    Finished,
}

/// The state of the setup wizard.
pub struct SetupWizard {
    /// The step shown.
    pub current_step: SetupWizardStep,
    /// The server being set up.
    pub work_in_progress_server_config: ServerConfig,
    /// The settings this device will have.
    pub work_in_progress_client_config: AppConfig,
    /// The name of the server user being added.
    pub new_user_name_input_text: String,
    /// The existing server's URL, as typed.
    pub server_url_input_text: String,
    /// This device's user on the existing server, as typed.
    pub client_username_input_text: String,
    /// That user's secret in base64, as typed.
    pub client_secret_input_text: String,
    /// Whether connecting to the server was tried and answered.
    pub connection_has_been_attempted: bool,
    /// The server's folders, each with what it holds, once the server answered.
    pub remote_folders_info: Option<Vec<(String, Vec<String>)>>,
    /// The server folder chosen, if any.
    pub selected_remote_folder: Option<String>,
    /// How the user chose to set up syncing.
    pub setup_type: SetupType,
    /// How far the download of the extra data has got.
    pub progress_bar_value: SetupProgressBarValue,
}

/// What the user, the server or the download do in the setup wizard.
pub enum SetupWizardMessage {
    GoToStep(SetupWizardStep),
    UpdateServerStaticIp(String),
    UpdateServerGatewayIp(String),
    AddNewUser,
    UpdateNewUserNameInputText(String),
    SetIsLanOnly(bool),
    UpdateServerUrlInputText(String),
    UpdateClientUsernameInputText(String),
    UpdateClientSecretInputText(String),
    SetExistingServerDetails,
    TestConnection,
    /// The server's folders with what each holds, or `None` when it could not be reached.
    SetRemoteFolderInfo(Option<Vec<(String, Vec<String>)>>),
    SetSelectedRemoteFolder(Option<String>),
    IgnoreFolderId(String),
    UnignoreFolderId(usize),
    SetSyncFrequency(SyncFrequencySettings),
    SetSetupType(SetupType),
    SetProgressBarValue(SetupProgressBarValue),
    DownloadExtraData,
    ConfirmRemoteAccessDetails,
    LinkClicked(String),
    UpdateServerDuckDnsDomain(String),
    UpdateServerDuckDnsToken(String),
    UpdateServerCertbotEmail(String),
    SetUserForThisDevice { username: String, auth_token: String },
    CopySetupScript,
    ConfirmLocalAccessDetails,
}

/// What has to happen after the wizard handled a message.
pub enum SetupAction {
    /// Nothing.
    Nothing,
    /// Handle this message next.
    Next(SetupWizardMessage),
    /// Show a bad toast with the text.
    ErrorToast(String),
    /// Ask the server at this address, as this user with this secret, for its folders (trying
    /// a few times), then `SetRemoteFolderInfo`.
    TestConnection { server: String, client_id: String, secret: Vec<u8> },
    /// Download the extra data, reporting with `SetProgressBarValue`.
    DownloadExtraData,
    /// Open the link.
    OpenLink(String),
    /// Put the server's setup script, made from the server's details, on the clipboard.
    CopySetupScript,
}

impl SetupWizard {
    /// The server's user names are all different.
    pub open spec fn wf(&self) -> bool {
        unique_user_names(self.work_in_progress_server_config.users_list@)
    }
}

/// The wizard can take `m`: an ignored folder given back by its position is in the list.
pub open spec fn wizard_can_take(w: SetupWizard, m: SetupWizardMessage) -> bool {
    m matches SetupWizardMessage::UnignoreFolderId(i) ==> i
        < w.work_in_progress_client_config.sync_config.ignored_remote_folder_ids@.len()
}

/// The wizard `after` is `before` with the server's details `server`.
pub open spec fn with_server(before: SetupWizard, after: SetupWizard, server: ServerConfig) -> bool {
    after == SetupWizard { work_in_progress_server_config: server, ..before }
}

/// The wizard `after` is `before` with this device's sync settings `sync`.
pub open spec fn with_sync(before: SetupWizard, after: SetupWizard, sync: SyncPageConfig) -> bool {
    after == SetupWizard {
        work_in_progress_client_config: AppConfig {
            sync_config: sync,
            ..before.work_in_progress_client_config
        },
        ..before
    }
}

/// The toast for a refused server detail.
pub open spec fn toasts(a: SetupAction, text: Seq<char>) -> bool {
    a matches SetupAction::ErrorToast(t) && t@ == text
}

/// How handling `m` takes the wizard from `before` to `after` and what it asks for (`a`).
pub open spec fn wizard_step(
    before: SetupWizard,
    after: SetupWizard,
    m: SetupWizardMessage,
    a: SetupAction,
) -> bool {
    let sc = before.work_in_progress_server_config;
    let sync = before.work_in_progress_client_config.sync_config;
    let url = before.server_url_input_text@;
    let user = before.client_username_input_text@;
    let secret = before.client_secret_input_text@;
    match m {
        SetupWizardMessage::GoToStep(step) => after == SetupWizard {
            current_step: step,
            connection_has_been_attempted: false,
            ..before
        } && if step == SetupWizardStep::ConfirmConnection {
            a matches SetupAction::Next(SetupWizardMessage::TestConnection)
        } else {
            a is Nothing
        },
        SetupWizardMessage::UpdateServerStaticIp(t) => with_server(
            before,
            after,
            ServerConfig { static_ip: t, ..sc },
        ) && a is Nothing,
        SetupWizardMessage::UpdateServerGatewayIp(t) => with_server(
            before,
            after,
            ServerConfig { gateway_ip: t, ..sc },
        ) && a is Nothing,
        SetupWizardMessage::UpdateServerDuckDnsDomain(t) => with_server(
            before,
            after,
            ServerConfig { duckdns_domain: t, ..sc },
        ) && a is Nothing,
        SetupWizardMessage::UpdateServerDuckDnsToken(t) => with_server(
            before,
            after,
            ServerConfig { duckdns_token: t, ..sc },
        ) && a is Nothing,
        SetupWizardMessage::UpdateServerCertbotEmail(t) => with_server(
            before,
            after,
            ServerConfig { certbot_email: t, ..sc },
        ) && a is Nothing,
        SetupWizardMessage::SetIsLanOnly(b) => with_server(
            before,
            after,
            ServerConfig { is_lan_only: b, ..sc },
        ) && a is Nothing,
        SetupWizardMessage::AddNewUser => a is Nothing && if before.new_user_name_input_text@.len()
            > 0 && user_position(sc.users_list@, before.new_user_name_input_text@) is None {
            let users = after.work_in_progress_server_config.users_list@;
            &&& after == SetupWizard {
                work_in_progress_server_config: ServerConfig {
                    users_list: after.work_in_progress_server_config.users_list,
                    ..sc
                },
                new_user_name_input_text: after.new_user_name_input_text,
                ..before
            }
            &&& after.new_user_name_input_text@.len() == 0
            &&& users.len() == sc.users_list@.len() + 1
            &&& users.take(sc.users_list@.len() as int) == sc.users_list@
            &&& users.last().0@ == before.new_user_name_input_text@
            &&& users.last().1@.len() == 20
        } else {
            after == before
        },
        SetupWizardMessage::UpdateNewUserNameInputText(t) => after == SetupWizard {
            new_user_name_input_text: t,
            ..before
        } && a is Nothing,
        SetupWizardMessage::UpdateServerUrlInputText(t) => after == SetupWizard {
            server_url_input_text: t,
            ..before
        } && a is Nothing,
        SetupWizardMessage::UpdateClientUsernameInputText(t) => after == SetupWizard {
            client_username_input_text: t,
            ..before
        } && a is Nothing,
        SetupWizardMessage::UpdateClientSecretInputText(t) => after == SetupWizard {
            client_secret_input_text: t,
            ..before
        } && a is Nothing,
        SetupWizardMessage::SetExistingServerDetails => if url.len() == 0 || user.len() == 0
            || secret.len() == 0 {
            after == before && toasts(a, server_details_message(ServerDetailsError::MissingField))
        } else if base64_decoded(secret) is None {
            after == before && toasts(a, server_details_message(ServerDetailsError::BadSecret))
        } else {
            let new_sync = after.work_in_progress_client_config.sync_config;
            &&& with_sync(before, after, new_sync)
            &&& new_sync == SyncPageConfig {
                server_url: new_sync.server_url,
                should_sync: true,
                client_credentials: new_sync.client_credentials,
                ..sync
            }
            &&& new_sync.server_url@ == server_address(url)
            &&& new_sync.client_credentials matches Some(c) && c.client_id@ == user && Some(
                c.client_secret@,
            ) == base64_decoded(secret)
            &&& a matches SetupAction::Next(
                SetupWizardMessage::GoToStep(SetupWizardStep::ConfirmConnection),
            )
        },
        SetupWizardMessage::TestConnection => match base64_decoded(secret) {
            Some(bytes) => after == SetupWizard { connection_has_been_attempted: false, ..before }
                && (a matches SetupAction::TestConnection { server, client_id, secret: s }
                && server@ == server_address(url) && client_id@ == user && s@ == bytes),
            None => after == before && toasts(
                a,
                server_details_message(ServerDetailsError::BadSecret),
            ),
        },
        SetupWizardMessage::SetRemoteFolderInfo(o) => after == SetupWizard {
            connection_has_been_attempted: true,
            remote_folders_info: o,
            ..before
        } && a is Nothing,
        SetupWizardMessage::SetSelectedRemoteFolder(o) => after == SetupWizard {
            selected_remote_folder: o,
            ..before
        } && a is Nothing,
        SetupWizardMessage::IgnoreFolderId(id) => {
            let new_sync = after.work_in_progress_client_config.sync_config;
            &&& with_sync(before, after, new_sync)
            &&& new_sync == SyncPageConfig {
                ignored_remote_folder_ids: new_sync.ignored_remote_folder_ids,
                ..sync
            }
            &&& new_sync.ignored_remote_folder_ids@ == sync.ignored_remote_folder_ids@.push(id)
            &&& a is Nothing
        },
        SetupWizardMessage::UnignoreFolderId(i) => {
            let new_sync = after.work_in_progress_client_config.sync_config;
            &&& with_sync(before, after, new_sync)
            &&& new_sync == SyncPageConfig {
                ignored_remote_folder_ids: new_sync.ignored_remote_folder_ids,
                ..sync
            }
            &&& new_sync.ignored_remote_folder_ids@ == sync.ignored_remote_folder_ids@.remove(
                i as int,
            )
            &&& a is Nothing
        },
        SetupWizardMessage::SetSyncFrequency(f) => with_sync(
            before,
            after,
            SyncPageConfig { sync_frequency_settings: f, ..sync },
        ) && a is Nothing,
        SetupWizardMessage::SetSetupType(t) => after == SetupWizard { setup_type: t, ..before }
            && a is Nothing,
        SetupWizardMessage::SetProgressBarValue(v) => after == SetupWizard {
            progress_bar_value: v,
            ..before
        } && a is Nothing,
        SetupWizardMessage::DownloadExtraData => after == before && a is DownloadExtraData,
        SetupWizardMessage::ConfirmRemoteAccessDetails => match remote_access_problem(sc) {
            Some(problem) => after == before && toasts(a, problem),
            None => with_server(before, after, ServerConfig { is_lan_only: false, ..sc }) && (
            a matches SetupAction::Next(
                SetupWizardMessage::GoToStep(SetupWizardStep::CreateServerUsers),
            )),
        },
        SetupWizardMessage::LinkClicked(l) => after == before && a == SetupAction::OpenLink(l),
        SetupWizardMessage::SetUserForThisDevice { username, auth_token } => a is Nothing && match base64_decoded(
            auth_token@,
        ) {
            Some(bytes) => {
                let new_sync = after.work_in_progress_client_config.sync_config;
                &&& with_sync(before, after, new_sync)
                &&& new_sync == SyncPageConfig {
                    client_credentials: new_sync.client_credentials,
                    ..sync
                }
                &&& new_sync.client_credentials matches Some(c) && c.client_id@ == username@
                    && c.client_secret@ == bytes
            },
            None => after == before,
        },
        SetupWizardMessage::CopySetupScript => after == before && a is CopySetupScript,
        SetupWizardMessage::ConfirmLocalAccessDetails => match ip_problem(
            sc.static_ip@,
            sc.gateway_ip@,
        ) {
            Some(problem) => after == before && toasts(a, problem),
            None => {
                let new_sync = after.work_in_progress_client_config.sync_config;
                &&& after == SetupWizard {
                    work_in_progress_server_config: ServerConfig { is_lan_only: true, ..sc },
                    work_in_progress_client_config: AppConfig {
                        sync_config: new_sync,
                        ..before.work_in_progress_client_config
                    },
                    ..before
                }
                &&& new_sync == SyncPageConfig { server_url: new_sync.server_url, ..sync }
                &&& new_sync.server_url@ == local_server_url(sc.static_ip@)
                &&& a matches SetupAction::Next(
                    SetupWizardMessage::GoToStep(SetupWizardStep::CreateServerUsers),
                )
            },
        },
    }
}

impl SetupWizard {
    /// The wizard at its first step, for a user whose home folder is `home_dir`: the server
    /// and this device with their default settings, nothing typed, tried or chosen.
    pub fn new(home_dir: &str) -> (r: SetupWizard)
        ensures
            r.wf(),
            r.current_step == SetupWizardStep::DecideWhetherToSetupServer,
            r.setup_type == SetupType::NoneSelectedYet,
            r.progress_bar_value is WaitingToStart,
            r.work_in_progress_server_config.users_list@.len() == 0,
            r.work_in_progress_server_config.is_lan_only,
            r.new_user_name_input_text@.len() == 0 && r.server_url_input_text@.len() == 0,
            r.client_username_input_text@.len() == 0 && r.client_secret_input_text@.len() == 0,
            !r.connection_has_been_attempted,
            r.remote_folders_info is None && r.selected_remote_folder is None,
    {
        SetupWizard {
            current_step: SetupWizardStep::DecideWhetherToSetupServer,
            work_in_progress_server_config: ServerConfig::default(),
            work_in_progress_client_config: AppConfig::default_for_home(home_dir),
            new_user_name_input_text: String::new(),
            server_url_input_text: String::new(),
            client_username_input_text: String::new(),
            client_secret_input_text: String::new(),
            connection_has_been_attempted: false,
            remote_folders_info: None,
            selected_remote_folder: None,
            setup_type: SetupType::NoneSelectedYet,
            progress_bar_value: SetupProgressBarValue::WaitingToStart,
        }
    }

    /// Handles `message` and says what has to happen next (see `wizard_step`).
    #[verifier::rlimit(100)]
    #[verifier::spinoff_prover]
    pub fn update(&mut self, message: SetupWizardMessage) -> (a: SetupAction)
        requires
            old(self).wf(),
            wizard_can_take(*old(self), message),
        ensures
            final(self).wf(),
            wizard_step(*old(self), *final(self), message, a),
    {
        match message {
            SetupWizardMessage::GoToStep(step) => {
                self.current_step = step;
                self.connection_has_been_attempted = false;
                if tests_connection_on_entry(step) {
                    SetupAction::Next(SetupWizardMessage::TestConnection)
                } else {
                    SetupAction::Nothing
                }
            },
            SetupWizardMessage::UpdateServerStaticIp(t) => {
                self.work_in_progress_server_config.static_ip = t;
                SetupAction::Nothing
            },
            SetupWizardMessage::UpdateServerGatewayIp(t) => {
                self.work_in_progress_server_config.gateway_ip = t;
                SetupAction::Nothing
            },
            SetupWizardMessage::UpdateServerDuckDnsDomain(t) => {
                self.work_in_progress_server_config.duckdns_domain = t;
                SetupAction::Nothing
            },
            SetupWizardMessage::UpdateServerDuckDnsToken(t) => {
                self.work_in_progress_server_config.duckdns_token = t;
                SetupAction::Nothing
            },
            SetupWizardMessage::UpdateServerCertbotEmail(t) => {
                self.work_in_progress_server_config.certbot_email = t;
                SetupAction::Nothing
            },
            SetupWizardMessage::SetIsLanOnly(b) => {
                self.work_in_progress_server_config.is_lan_only = b;
                SetupAction::Nothing
            },
            SetupWizardMessage::AddNewUser => {
                if add_new_user(
                    &mut self.work_in_progress_server_config,
                    self.new_user_name_input_text.as_str(),
                ) {
                    self.new_user_name_input_text = String::new();
                }
                SetupAction::Nothing
            },
            SetupWizardMessage::UpdateNewUserNameInputText(t) => {
                self.new_user_name_input_text = t;
                SetupAction::Nothing
            },
            SetupWizardMessage::UpdateServerUrlInputText(t) => {
                self.server_url_input_text = t;
                SetupAction::Nothing
            },
            SetupWizardMessage::UpdateClientUsernameInputText(t) => {
                self.client_username_input_text = t;
                SetupAction::Nothing
            },
            SetupWizardMessage::UpdateClientSecretInputText(t) => {
                self.client_secret_input_text = t;
                SetupAction::Nothing
            },
            SetupWizardMessage::SetExistingServerDetails => {
                match set_existing_server_details(
                    &mut self.work_in_progress_client_config.sync_config,
                    self.server_url_input_text.as_str(),
                    self.client_username_input_text.as_str(),
                    self.client_secret_input_text.as_str(),
                ) {
                    Ok(step) => SetupAction::Next(SetupWizardMessage::GoToStep(step)),
                    Err(e) => SetupAction::ErrorToast(e.message()),
                }
            },
            SetupWizardMessage::TestConnection => {
                match decode_base64(self.client_secret_input_text.as_str()) {
                    Some(secret) => {
                        self.connection_has_been_attempted = false;
                        SetupAction::TestConnection {
                            server: strip_url_scheme(self.server_url_input_text.as_str()),
                            client_id: self.client_username_input_text.clone(),
                            secret,
                        }
                    },
                    None => SetupAction::ErrorToast(ServerDetailsError::BadSecret.message()),
                }
            },
            SetupWizardMessage::SetRemoteFolderInfo(o) => {
                self.connection_has_been_attempted = true;
                self.remote_folders_info = o;
                SetupAction::Nothing
            },
            SetupWizardMessage::SetSelectedRemoteFolder(o) => {
                self.selected_remote_folder = o;
                SetupAction::Nothing
            },
            SetupWizardMessage::IgnoreFolderId(id) => {
                ignore_folder_id(&mut self.work_in_progress_client_config.sync_config, id);
                SetupAction::Nothing
            },
            SetupWizardMessage::UnignoreFolderId(i) => {
                unignore_folder_id(&mut self.work_in_progress_client_config.sync_config, i);
                SetupAction::Nothing
            },
            SetupWizardMessage::SetSyncFrequency(f) => {
                self.work_in_progress_client_config.sync_config.sync_frequency_settings = f;
                SetupAction::Nothing
            },
            SetupWizardMessage::SetSetupType(t) => {
                self.setup_type = t;
                SetupAction::Nothing
            },
            SetupWizardMessage::SetProgressBarValue(v) => {
                self.progress_bar_value = v;
                SetupAction::Nothing
            },
            SetupWizardMessage::DownloadExtraData => SetupAction::DownloadExtraData,
            SetupWizardMessage::ConfirmRemoteAccessDetails => {
                match confirm_remote_access_details(&mut self.work_in_progress_server_config) {
                    Ok(step) => SetupAction::Next(SetupWizardMessage::GoToStep(step)),
                    Err(e) => SetupAction::ErrorToast(e),
                }
            },
            SetupWizardMessage::LinkClicked(l) => SetupAction::OpenLink(l),
            SetupWizardMessage::SetUserForThisDevice { username, auth_token } => {
                let _set = set_user_for_this_device(
                    &mut self.work_in_progress_client_config.sync_config,
                    username.as_str(),
                    auth_token.as_str(),
                );
                SetupAction::Nothing
            },
            SetupWizardMessage::CopySetupScript => SetupAction::CopySetupScript,
            SetupWizardMessage::ConfirmLocalAccessDetails => {
                match confirm_local_access_details(
                    &mut self.work_in_progress_server_config,
                    &mut self.work_in_progress_client_config.sync_config,
                ) {
                    Ok(step) => SetupAction::Next(SetupWizardMessage::GoToStep(step)),
                    Err(e) => SetupAction::ErrorToast(e),
                }
            },
        }
    }
}


/// An address is valid exactly when it has four dot-separated parts, each made of one to three
/// ASCII digits that write a number of at most 255: every part, the first and last as much as
/// the two in the middle, has to fit in a byte.
pub proof fn lemma_valid_ip_iff_four_byte_parts(ip: Seq<char>)
    ensures
        is_valid_ip_address(ip) <==> (split_at_char(ip, '.').len() == 4 && forall|i: int|
            0 <= i < 4 ==> 1 <= (#[trigger] split_at_char(ip, '.')[i]).len() <= 3
                && all_ascii_digits(split_at_char(ip, '.')[i]) && digits_value(
                split_at_char(ip, '.')[i],
            ) <= 255),
{
}

/// A part that writes a number above 255, wherever it stands, makes the address invalid.
pub proof fn lemma_part_over_255_is_invalid(ip: Seq<char>, i: int)
    requires
        0 <= i < split_at_char(ip, '.').len(),
        digits_value(split_at_char(ip, '.')[i]) > 255,
    ensures
        !is_valid_ip_address(ip),
{
}

/// Splitting never gives an empty list of parts.
proof fn lemma_split_nonempty(s: Seq<char>, c: char)
    ensures
        split_at_char(s, c).len() >= 1,
    decreases s.len(),
{
    if s.len() > 0 {
        lemma_split_nonempty(s.drop_last(), c);
    }
}

/// Text without the separator is a single part.
proof fn lemma_split_without_separator(s: Seq<char>, c: char)
    requires
        forall|k: int| 0 <= k < s.len() ==> #[trigger] s[k] != c,
    ensures
        split_at_char(s, c) == seq![s],
    decreases s.len(),
{
    if s.len() > 0 {
        assert forall|k: int| 0 <= k < s.drop_last().len() implies #[trigger] s.drop_last()[k]
            != c by {
            assert(s[k] != c);
        }
        lemma_split_without_separator(s.drop_last(), c);
        assert(s[s.len() - 1] != c);
        assert(s.drop_last().push(s.last()) =~= s);
        let r = split_at_char(s.drop_last(), c);
        assert(r.len() == 1 && r.last() == s.drop_last());
        assert(split_at_char(s, c) == r.update(0, s.drop_last().push(s.last())));
        assert(r.update(0, s) =~= seq![s]);
    } else {
        assert(s =~= Seq::<char>::empty());
    }
}

/// Splitting `a`, the separator and `b` gives the parts of `a` followed by those of `b`.
proof fn lemma_split_joined(a: Seq<char>, b: Seq<char>, c: char)
    ensures
        split_at_char(a.push(c) + b, c) == split_at_char(a, c) + split_at_char(b, c),
    decreases b.len(),
{
    let s = a.push(c) + b;
    if b.len() == 0 {
        assert(s =~= a.push(c));
        assert(s.drop_last() =~= a);
        assert(split_at_char(a, c).push(seq![]) =~= split_at_char(a, c) + seq![seq![]]);
    } else {
        assert(s.drop_last() =~= a.push(c) + b.drop_last());
        assert(s.last() == b.last());
        lemma_split_joined(a, b.drop_last(), c);
        lemma_split_nonempty(b.drop_last(), c);
        let left = split_at_char(a, c);
        let right = split_at_char(b.drop_last(), c);
        if b.last() == c {
            assert((left + right).push(seq![]) =~= left + right.push(seq![]));
        } else {
            let r = left + right;
            assert(r.update(r.len() - 1, r.last().push(b.last())) =~= left + right.update(
                right.len() - 1,
                right.last().push(b.last()),
            ));
        }
    }
}

/// For an address written as four dot-free parts joined by dots, such as `192.300.1.10`, it
/// is valid exactly when each of the four parts is one to three ASCII digits writing a number
/// of at most 255.
pub proof fn lemma_dotted_quad_valid_iff(
    p0: Seq<char>,
    p1: Seq<char>,
    p2: Seq<char>,
    p3: Seq<char>,
)
    requires
        forall|k: int| 0 <= k < p0.len() ==> #[trigger] p0[k] != '.',
        forall|k: int| 0 <= k < p1.len() ==> #[trigger] p1[k] != '.',
        forall|k: int| 0 <= k < p2.len() ==> #[trigger] p2[k] != '.',
        forall|k: int| 0 <= k < p3.len() ==> #[trigger] p3[k] != '.',
    ensures
        is_valid_ip_address(((p0.push('.') + p1).push('.') + p2).push('.') + p3) <==> (1
            <= p0.len() <= 3 && all_ascii_digits(p0) && digits_value(p0) <= 255 && 1 <= p1.len()
            <= 3 && all_ascii_digits(p1) && digits_value(p1) <= 255 && 1 <= p2.len() <= 3
            && all_ascii_digits(p2) && digits_value(p2) <= 255 && 1 <= p3.len() <= 3
            && all_ascii_digits(p3) && digits_value(p3) <= 255),
{
    lemma_split_without_separator(p0, '.');
    lemma_split_without_separator(p1, '.');
    lemma_split_without_separator(p2, '.');
    lemma_split_without_separator(p3, '.');
    let a = p0.push('.') + p1;
    let b = a.push('.') + p2;
    let ip = b.push('.') + p3;
    lemma_split_joined(p0, p1, '.');
    lemma_split_joined(a, p2, '.');
    lemma_split_joined(b, p3, '.');
    let parts = split_at_char(ip, '.');
    assert(parts =~= seq![p0, p1, p2, p3]);
    assert(parts[0] == p0 && parts[1] == p1 && parts[2] == p2 && parts[3] == p3);
}

} // verus!
