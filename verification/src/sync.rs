//! The sync page: the list of ignored names and the folders this device syncs, and the
//! server address chosen in the settings.

use vstd::prelude::*;

use crate::setup_wizard::server_address;
use crate::text::{last_occurrence, last_occurrence_from, occurs_at, scheme_separator, str_eq, strip_url_scheme};

verus! {

/// A message of the sync page.
pub enum SyncPageMessage {
    UpdateIgnoreListEditor(String),
    AddToIgnoreList,
    DeleteFromIgnoreList(usize),
    PickNewSyncListFolder,
    SetNewSyncListFolder(Option<String>),
    DeleteFromFolderList(String),
}

/// What the application does after the sync page handled a message.
#[derive(Debug, PartialEq, Eq, Structural, Clone, Copy)]
pub enum SyncPageAction {
    /// Nothing more to do.
    Nothing,
    /// Write the ignore list to its file.
    SaveIgnoreList,
    /// Write the folder list to its file.
    SaveFolderList,
    /// Ask the user for a folder to sync.
    PickFolder,
}

/// The sync page's state. Each folder id appears once in `folders_to_sync`.
pub struct SyncPage {
    pub ignore_list_editor_text: String,
    pub is_connected_to_server: bool,
    pub ignore_string_list: Vec<String>,
    pub folders_to_sync: Vec<(String, String)>,
}

/// No folder id appears twice.
pub open spec fn unique_folder_ids(folders: Seq<(String, String)>) -> bool {
    forall|i: int, j: int| 0 <= i < j < folders.len() ==> folders[i].0@ != folders[j].0@
}

/// The position of the first of `folders` with id `id`, if any.
pub open spec fn folder_index(folders: Seq<(String, String)>, id: Seq<char>) -> Option<int>
    decreases folders.len(),
{
    if folders.len() == 0 {
        None
    } else {
        match folder_index(folders.drop_last(), id) {
            Some(i) => Some(i),
            None => if folders.last().0@ == id {
                Some(folders.len() - 1)
            } else {
                None
            },
        }
    }
}

/// `folders` with `entry` put in: in place of the folder with the same id, or at the end.
pub open spec fn with_folder(folders: Seq<(String, String)>, entry: (String, String)) -> Seq<
    (String, String),
> {
    match folder_index(folders, entry.0@) {
        Some(i) => folders.update(i, entry),
        None => folders.push(entry),
    }
}

/// `folders` without the folder with id `id` (unchanged when there is none).
pub open spec fn without_folder(folders: Seq<(String, String)>, id: Seq<char>) -> Seq<
    (String, String),
> {
    match folder_index(folders, id) {
        Some(i) => folders.remove(i),
        None => folders,
    }
}

proof fn lemma_folder_index_range(folders: Seq<(String, String)>, id: Seq<char>)
    ensures
        folder_index(folders, id) matches Some(i) ==> 0 <= i < folders.len() && folders[i].0@
            == id,
    decreases folders.len(),
{
    if folders.len() > 0 {
        lemma_folder_index_range(folders.drop_last(), id);
    }
}

proof fn lemma_folder_index_none(folders: Seq<(String, String)>, id: Seq<char>)
    requires
        folder_index(folders, id) is None,
    ensures
        forall|j: int| 0 <= j < folders.len() ==> #[trigger] folders[j].0@ != id,
    decreases folders.len(),
{
    if folders.len() > 0 {
        lemma_folder_index_none(folders.drop_last(), id);
        assert forall|j: int| 0 <= j < folders.len() implies #[trigger] folders[j].0@ != id by {
            if j < folders.len() - 1 {
                assert(folders.drop_last()[j] == folders[j]);
            }
        }
    }
}

proof fn lemma_folder_index_prefix(folders: Seq<(String, String)>, id: Seq<char>, n: int)
    requires
        0 <= n <= folders.len(),
        folder_index(folders.take(n), id) is Some,
    ensures
        folder_index(folders, id) == folder_index(folders.take(n), id),
    decreases folders.len(),
{
    if n < folders.len() {
        assert(folders.drop_last().take(n) =~= folders.take(n));
        lemma_folder_index_prefix(folders.drop_last(), id, n);
    } else {
        assert(folders.take(n) =~= folders);
    }
}

/// A lower-case hexadecimal digit.
pub open spec fn is_lower_hex(c: char) -> bool {
    ('0' <= c <= '9') || ('a' <= c <= 'f')
}

/// `s` is a version 4 UUID written as text: 36 characters, lower-case hexadecimal digits in
/// groups of 8, 4, 4, 4 and 12 parted by hyphens, the version digit `4` and the variant digit
/// one of `8`, `9`, `a`, `b`.
pub open spec fn is_uuid_v4_text(s: Seq<char>) -> bool {
    &&& s.len() == 36
    &&& forall|i: int|
        0 <= i < 36 ==> if i == 8 || i == 13 || i == 18 || i == 23 {
            s[i] == '-'
        } else {
            is_lower_hex(#[trigger] s[i])
        }
    &&& s[14] == '4'
    &&& (s[19] == '8' || s[19] == '9' || s[19] == 'a' || s[19] == 'b')
}

/// A new random (version 4) UUID from `uuid::Uuid::new_v4`, written as text (its `Display`,
/// the lower-case hyphenated form); the digits other than the version and variant are
/// random.
#[verifier::external_body]
fn new_folder_id() -> (id: String)
    ensures
        is_uuid_v4_text(id@),
{
    uuid::Uuid::new_v4().to_string()
}

/// The position of the first folder with id `id`, if any.
fn folder_position(folders: &Vec<(String, String)>, id: &str) -> (r: Option<usize>)
    ensures
        folder_index(folders@, id@) == (match r {
            Some(i) => Some(i as int),
            None => None,
        }),
        r matches Some(i) ==> i < folders@.len() && folders@[i as int].0@ == id@,
{
    proof {
        lemma_folder_index_range(folders@, id@);
    }
    let mut i: usize = 0;
    while i < folders.len()
        invariant
            i <= folders.len(),
            folder_index(folders@.take(i as int), id@) is None,
        decreases folders.len() - i,
    {
        assert(folders@.take(i + 1).drop_last() =~= folders@.take(i as int));
        if str_eq(folders[i].0.as_str(), id) {
            proof {
                lemma_folder_index_prefix(folders@, id@, i as int + 1);
            }
            return Some(i);
        }
        i += 1;
    }
    assert(folders@.take(folders.len() as int) =~= folders@);
    None
}

impl SyncPage {
    /// A sync page showing the saved ignore list and folder list.
    pub fn new(ignore_string_list: Vec<String>, folders_to_sync: Vec<(String, String)>) -> (r:
        SyncPage)
        ensures
            r.ignore_list_editor_text@.len() == 0,
            !r.is_connected_to_server,
            r.ignore_string_list@ == ignore_string_list@,
            r.folders_to_sync@ == folders_to_sync@,
    {
        SyncPage {
            ignore_list_editor_text: String::new(),
            is_connected_to_server: false,
            ignore_string_list,
            folders_to_sync,
        }
    }

    /// Handles a message of the sync page. Adding takes the editor's text when it is not
    /// empty; deleting from the ignore list takes an index inside it; a picked folder is added
    /// under a new id (replacing a folder with the same id); removing a folder adds its id to
    /// the ignore list.
    pub fn update(&mut self, message: SyncPageMessage) -> (action: SyncPageAction)
        requires
            unique_folder_ids(old(self).folders_to_sync@),
            message matches SyncPageMessage::DeleteFromIgnoreList(i) ==> i < old(self).ignore_string_list@.len(),
        ensures
            unique_folder_ids(final(self).folders_to_sync@),
            final(self).is_connected_to_server == old(self).is_connected_to_server,
            match message {
                SyncPageMessage::UpdateIgnoreListEditor(s) => {
                    &&& final(self).ignore_list_editor_text@ == s@
                    &&& final(self).ignore_string_list@ == old(self).ignore_string_list@
                    &&& final(self).folders_to_sync@ == old(self).folders_to_sync@
                    &&& action == SyncPageAction::Nothing
                },
                SyncPageMessage::AddToIgnoreList => if old(self).ignore_list_editor_text@.len()
                    > 0 {
                    &&& final(self).ignore_string_list@.len() == old(self).ignore_string_list@.len()
                        + 1
                    &&& final(self).ignore_string_list@.take(
                        old(self).ignore_string_list@.len() as int,
                    ) == old(self).ignore_string_list@
                    &&& final(self).ignore_string_list@.last()@ == old(self).ignore_list_editor_text@
                    &&& final(self).ignore_list_editor_text@.len() == 0
                    &&& final(self).folders_to_sync@ == old(self).folders_to_sync@
                    &&& action == SyncPageAction::SaveIgnoreList
                } else {
                    &&& final(self).ignore_string_list@ == old(self).ignore_string_list@
                    &&& final(self).ignore_list_editor_text@ == old(self).ignore_list_editor_text@
                    &&& final(self).folders_to_sync@ == old(self).folders_to_sync@
                    &&& action == SyncPageAction::Nothing
                },
                SyncPageMessage::DeleteFromIgnoreList(i) => {
                    &&& final(self).ignore_string_list@ == old(self).ignore_string_list@.remove(
                        i as int,
                    )
                    &&& final(self).folders_to_sync@ == old(self).folders_to_sync@
                    &&& final(self).ignore_list_editor_text@ == old(self).ignore_list_editor_text@
                    &&& action == SyncPageAction::SaveIgnoreList
                },
                SyncPageMessage::PickNewSyncListFolder => {
                    &&& final(self).ignore_string_list@ == old(self).ignore_string_list@
                    &&& final(self).folders_to_sync@ == old(self).folders_to_sync@
                    &&& final(self).ignore_list_editor_text@ == old(self).ignore_list_editor_text@
                    &&& action == SyncPageAction::PickFolder
                },
                SyncPageMessage::SetNewSyncListFolder(folder) => match folder {
                    Some(f) => {
                        &&& exists|id: String|
                            is_uuid_v4_text(id@) && final(self).folders_to_sync@
                                == #[trigger] with_folder(old(self).folders_to_sync@, (id, f))
                        &&& final(self).ignore_string_list@ == old(self).ignore_string_list@
                        &&& final(self).ignore_list_editor_text@ == old(self).ignore_list_editor_text@
                        &&& action == SyncPageAction::SaveFolderList
                    },
                    None => {
                        &&& final(self).folders_to_sync@ == old(self).folders_to_sync@
                        &&& final(self).ignore_string_list@ == old(self).ignore_string_list@
                        &&& final(self).ignore_list_editor_text@ == old(self).ignore_list_editor_text@
                        &&& action == SyncPageAction::Nothing
                    },
                },
                SyncPageMessage::DeleteFromFolderList(id) => {
                    &&& final(self).folders_to_sync@ == without_folder(old(self).folders_to_sync@, id@)
                    &&& final(self).ignore_string_list@.len() == old(self).ignore_string_list@.len()
                        + 1
                    &&& final(self).ignore_string_list@.take(
                        old(self).ignore_string_list@.len() as int,
                    ) == old(self).ignore_string_list@
                    &&& final(self).ignore_string_list@.last()@ == id@
                    &&& final(self).ignore_list_editor_text@ == old(self).ignore_list_editor_text@
                    &&& action == SyncPageAction::SaveFolderList
                },
            },
    {
        match message {
            SyncPageMessage::UpdateIgnoreListEditor(s) => {
                self.ignore_list_editor_text = s;
                SyncPageAction::Nothing
            },
            SyncPageMessage::AddToIgnoreList => {
                if crate::text::chars_of(self.ignore_list_editor_text.as_str()).len() > 0 {
                    let mut text = String::new();
                    std::mem::swap(&mut text, &mut self.ignore_list_editor_text);
                    self.ignore_string_list.push(text);
                    assert(self.ignore_string_list@.take(
                        old(self).ignore_string_list@.len() as int,
                    ) =~= old(self).ignore_string_list@);
                    SyncPageAction::SaveIgnoreList
                } else {
                    SyncPageAction::Nothing
                }
            },
            SyncPageMessage::DeleteFromIgnoreList(i) => {
                let _removed = self.ignore_string_list.remove(i);
                SyncPageAction::SaveIgnoreList
            },
            SyncPageMessage::PickNewSyncListFolder => SyncPageAction::PickFolder,
            SyncPageMessage::SetNewSyncListFolder(folder) => match folder {
                Some(f) => {
                    let id = new_folder_id();
                    let ghost entry = (id, f);
                    match folder_position(&self.folders_to_sync, id.as_str()) {
                        Some(i) => {
                            let _old = self.folders_to_sync.remove(i);
                            self.folders_to_sync.insert(i, (id, f));
                            assert(self.folders_to_sync@ =~= old(self).folders_to_sync@.update(
                                i as int,
                                entry,
                            ));
                            assert forall|a: int, b: int|
                                0 <= a < b < self.folders_to_sync@.len() implies self.folders_to_sync@[a].0@
                                != self.folders_to_sync@[b].0@ by {
                                if a != i as int && b != i as int {
                                    assert(self.folders_to_sync@[a] == old(self).folders_to_sync@[a]);
                                    assert(self.folders_to_sync@[b] == old(self).folders_to_sync@[b]);
                                } else if a == i as int {
                                    assert(self.folders_to_sync@[b] == old(self).folders_to_sync@[b]);
                                } else {
                                    assert(self.folders_to_sync@[a] == old(self).folders_to_sync@[a]);
                                }
                            }
                        },
                        None => {
                            proof {
                                lemma_folder_index_none(old(self).folders_to_sync@, entry.0@);
                            }
                            self.folders_to_sync.push((id, f));
                        },
                    }
                    assert(self.folders_to_sync@ == with_folder(old(self).folders_to_sync@, entry));
                    SyncPageAction::SaveFolderList
                },
                None => SyncPageAction::Nothing,
            },
            SyncPageMessage::DeleteFromFolderList(id) => {
                match folder_position(&self.folders_to_sync, id.as_str()) {
                    Some(i) => {
                        let _removed = self.folders_to_sync.remove(i);
                        assert forall|a: int, b: int|
                            0 <= a < b < self.folders_to_sync@.len() implies self.folders_to_sync@[a].0@
                            != self.folders_to_sync@[b].0@ by {
                            let oa = if a < i { a } else { a + 1 };
                            let ob = if b < i { b } else { b + 1 };
                            assert(self.folders_to_sync@[a] == old(self).folders_to_sync@[oa]);
                            assert(self.folders_to_sync@[b] == old(self).folders_to_sync@[ob]);
                        }
                    },
                    None => {},
                }
                self.ignore_string_list.push(id);
                assert(self.ignore_string_list@.take(old(self).ignore_string_list@.len() as int)
                    =~= old(self).ignore_string_list@);
                SyncPageAction::SaveFolderList
            },
        }
    }
}

/// Whether `url_text` parses as a URL, as `url::Url::parse` decides.
pub uninterp spec fn parses_as_url(url_text: Seq<char>) -> bool;

/// Whether `url::Url::parse` accepts `s`; the answer is named `parses_as_url`.
#[verifier::external_body]
fn url_parses(s: &str) -> (b: bool)
    ensures
        b == parses_as_url(s@),
{
    url::Url::parse(s).is_ok()
}

/// The server address to keep for the URL typed in the settings: what follows its last
/// `://`, when the text parses as a URL; `None` when it does not.
pub fn server_url_from_input(url_text: &str) -> (r: Option<String>)
    ensures
        parses_as_url(url_text@) ==> (r matches Some(s) && s@ == server_address(url_text@)),
        !parses_as_url(url_text@) ==> r is None,
{
    if url_parses(url_text) {
        Some(strip_url_scheme(url_text))
    } else {
        None
    }
}

proof fn lemma_last_occurrence_from_is_last(hay: Seq<char>, needle: Seq<char>, i: int, j: int)
    requires
        occurs_at(hay, needle, j),
        j <= i,
    ensures
        last_occurrence_from(hay, needle, i) matches Some(k) && j <= k,
    decreases i + 1,
{
    if !occurs_at(hay, needle, i) {
        lemma_last_occurrence_from_is_last(hay, needle, i - 1, j);
    }
}

/// The server address kept for a URL never holds a `://`.
pub proof fn lemma_server_address_has_no_scheme(url: Seq<char>)
    ensures
        forall|j: int| !occurs_at(server_address(url), scheme_separator(), j),
{
    assert forall|j: int| !occurs_at(server_address(url), scheme_separator(), j) by {
        let a = server_address(url);
        if occurs_at(a, scheme_separator(), j) {
            match last_occurrence(url, scheme_separator()) {
                Some(i) => {
                    lemma_last_occurrence_is_occurrence(url, scheme_separator(), url.len() - 3);
                    assert(url.subrange(i + 3 + j, i + 3 + j + 3) =~= a.subrange(j, j + 3));
                    assert(occurs_at(url, scheme_separator(), i + 3 + j));
                    lemma_last_occurrence_from_is_last(url, scheme_separator(), url.len() - 3, i + 3 + j);
                },
                None => {
                    lemma_last_occurrence_from_is_last(url, scheme_separator(), url.len() - 3, j);
                },
            }
        }
    }
}

proof fn lemma_last_occurrence_is_occurrence(hay: Seq<char>, needle: Seq<char>, i: int)
    ensures
        last_occurrence_from(hay, needle, i) matches Some(k) ==> k <= i && occurs_at(hay, needle, k),
    decreases i + 1,
{
    if i >= 0 && !occurs_at(hay, needle, i) {
        lemma_last_occurrence_is_occurrence(hay, needle, i - 1);
    }
}

} // verus!
