//! Passwords: the entries of the open password database and how the page edits them.

use rand::Rng;
use vstd::prelude::*;

use crate::notes::kept_indices;
use crate::text::{contains_ignoring_case, contains_seq, lowercase, push_char, str_eq};

verus! {

/// An entry of the password database. The id is the entry's UUID as a number.
pub struct Password {
    pub id: u128,
    pub title: String,
    pub username: String,
    pub url: String,
    pub password: String,
}

/// A new random (version 4) UUID, from `uuid::Uuid::new_v4`, as a number (big-endian): its
/// version bits say 4 and its variant bits are `10`; the other bits are random.
#[verifier::external_body]
fn new_entry_id() -> (id: u128)
    ensures
        (id >> 76u128) & 0xfu128 == 4,
        (id >> 62u128) & 0x3u128 == 2,
{
    uuid::Uuid::new_v4().as_u128()
}

/// The position of the first entry with id `id`, if any.
pub open spec fn entry_position(list: Seq<Password>, id: u128) -> Option<int>
    decreases list.len(),
{
    if list.len() == 0 {
        None
    } else {
        match entry_position(list.drop_last(), id) {
            Some(i) => Some(i),
            None => if list.last().id == id {
                Some(list.len() - 1)
            } else {
                None
            },
        }
    }
}

proof fn lemma_entry_position(list: Seq<Password>, id: u128)
    ensures
        entry_position(list, id) matches Some(i) ==> 0 <= i < list.len() && list[i].id == id
            && forall|j: int| 0 <= j < i ==> list[j].id != id,
        entry_position(list, id) is None ==> forall|j: int| 0 <= j < list.len() ==> list[j].id != id,
    decreases list.len(),
{
    if list.len() > 0 {
        let init = list.drop_last();
        lemma_entry_position(init, id);
        assert forall|j: int| 0 <= j < init.len() implies init[j] == list[j] by {}
    }
}

/// Finds the first entry with id `id`.
pub fn find_entry(list: &Vec<Password>, id: u128) -> (r: Option<usize>)
    ensures
        entry_position(list@, id) == (match r {
            Some(i) => Some(i as int),
            None => None,
        }),
        r matches Some(i) ==> i < list.len() && list@[i as int].id == id,
{
    proof {
        lemma_entry_position(list@, id);
    }
    let mut i: usize = 0;
    while i < list.len()
        invariant
            i <= list.len(),
            forall|j: int| 0 <= j < i ==> list@[j].id != id,
            entry_position(list@, id) matches Some(k) ==> 0 <= k < list.len() && list@[k].id == id
                && forall|j: int| 0 <= j < k ==> list@[j].id != id,
            entry_position(list@, id) is None ==> forall|j: int|
                0 <= j < list.len() ==> list@[j].id != id,
        decreases list.len() - i,
    {
        if list[i].id == id {
            return Some(i);
        }
        i += 1;
    }
    None
}

/// The entry fields `e` holds the given texts.
pub open spec fn holds_fields(
    e: Password,
    title: Seq<char>,
    username: Seq<char>,
    url: Seq<char>,
    password: Seq<char>,
) -> bool {
    &&& e.title@ == title
    &&& e.username@ == username
    &&& e.url@ == url
    &&& e.password@ == password
}

/// `after` is `before` with the entry with id `selected_id` given the fields (a missing id
/// changes nothing), or, when no entry is selected, with a new entry holding them added at
/// the end.
pub open spec fn entry_saved(
    before: Seq<Password>,
    after: Seq<Password>,
    selected_id: Option<u128>,
    title: Seq<char>,
    username: Seq<char>,
    url: Seq<char>,
    password: Seq<char>,
) -> bool {
    match selected_id {
        Some(id) => {
            &&& after.len() == before.len()
            &&& forall|j: int|
                0 <= j < before.len() && Some(j) != entry_position(before, id) ==> #[trigger] after[j]
                    == before[j]
            &&& match entry_position(before, id) {
                Some(i) => after[i].id == id && holds_fields(after[i], title, username, url, password),
                None => true,
            }
        },
        None => {
            &&& after.len() == before.len() + 1
            &&& after.take(before.len() as int) == before
            &&& holds_fields(after.last(), title, username, url, password)
            &&& (after.last().id >> 76u128) & 0xfu128 == 4
            &&& (after.last().id >> 62u128) & 0x3u128 == 2
        },
    }
}

/// Saves the entry being edited. With the id of the selected entry, the first entry with that
/// id gets the new fields (when there is one); without a selected entry, a new entry with a
/// fresh id is added at the end.
pub fn save_password_entry(
    list: &mut Vec<Password>,
    selected_id: Option<u128>,
    title: String,
    username: String,
    url: String,
    password: String,
)
    ensures
        entry_saved(old(list)@, final(list)@, selected_id, title@, username@, url@, password@),
{
    match selected_id {
        Some(id) => match find_entry(list, id) {
            Some(i) => {
                let _old_entry = list.remove(i);
                list.insert(i, Password { id, title, username, url, password });
                proof {
                    assert forall|j: int|
                        0 <= j < old(list)@.len() && Some(j) != entry_position(
                            old(list)@,
                            id,
                        ) implies #[trigger] list@[j] == old(list)@[j] by {
                        assert(j != i);
                    }
                }
            },
            None => {},
        },
        None => {
            let id = new_entry_id();
            list.push(Password { id, title, username, url, password });
            assert(list@.take(old(list)@.len() as int) =~= old(list)@);
        },
    }
}

/// Deletes the first entry with id `id`. Returns whether there was one; otherwise nothing
/// changes.
pub fn delete_password_entry(list: &mut Vec<Password>, id: u128) -> (deleted: bool)
    ensures
        deleted == entry_position(old(list)@, id) is Some,
        match entry_position(old(list)@, id) {
            Some(i) => final(list)@ == old(list)@.remove(i),
            None => final(list)@ == old(list)@,
        },
{
    match find_entry(list, id) {
        Some(i) => {
            let _removed = list.remove(i);
            true
        },
        None => false,
    }
}

/// The positions, in order, of the entries whose titles contain `filter`, ignoring case.
/// An empty filter lists every entry.
pub fn entries_matching_filter(list: &Vec<Password>, filter: &str) -> (r: Vec<usize>)
    ensures
        r@.map_values(|i: usize| i as int) == kept_indices(
            |i: int| contains_seq(lowercase(list@[i].title@), lowercase(filter@)),
            list@.len() as int,
        ),
        filter@.len() == 0 ==> r@.len() == list@.len() && forall|i: int|
            0 <= i < r@.len() ==> r@[i] == i,
{
    let ghost keep = |i: int| contains_seq(lowercase(list@[i].title@), lowercase(filter@));
    let mut r: Vec<usize> = Vec::new();
    let mut i: usize = 0;
    while i < list.len()
        invariant
            i <= list.len(),
            keep == (|i: int| contains_seq(lowercase(list@[i].title@), lowercase(filter@))),
            r@.map_values(|i: usize| i as int) == kept_indices(keep, i as int),
            filter@.len() == 0 ==> r@.len() == i && forall|j: int| 0 <= j < i ==> r@[j] == j,
        decreases list.len() - i,
    {
        if contains_ignoring_case(list[i].title.as_str(), filter) {
            r.push(i);
            assert(r@.map_values(|i: usize| i as int) =~= kept_indices(keep, i as int).push(
                i as int,
            ));
        }
        i += 1;
    }
    r
}

/// The master password to open a database with: none when the field is empty.
pub fn master_password_option(field_text: &str) -> (r: Option<String>)
    ensures
        field_text@.len() == 0 ==> r is None,
        field_text@.len() > 0 ==> (r matches Some(s) && s@ == field_text@),
{
    let cs = crate::text::chars_of(field_text);
    if cs.len() == 0 {
        None
    } else {
        Some(field_text.to_owned())
    }
}

/// A random byte in `lo..hi`: `rand::Rng::gen_range` on the thread's random number
/// generator, which gives a value in the half-open range and panics on an empty one. Which
/// value comes is random, so nothing more is stated.
#[verifier::external_body]
fn random_byte_in(lo: u8, hi: u8) -> (b: u8)
    requires
        lo < hi,
    ensures
        lo <= b < hi,
{
    rand::thread_rng().gen_range(lo..hi)
}

/// The length of a generated password.
pub const GENERATED_PASSWORD_LENGTH: usize = 30;

/// A printable ASCII character other than space.
pub open spec fn is_printable_ascii(c: char) -> bool {
    33 <= (c as u32) < 127
}

/// A new random password of 30 printable ASCII characters other than space.
pub fn generate_password() -> (r: String)
    ensures
        r@.len() == 30,
        forall|i: int| 0 <= i < r@.len() ==> is_printable_ascii(#[trigger] r@[i]),
{
    let mut r = String::new();
    let mut i: usize = 0;
    while i < GENERATED_PASSWORD_LENGTH
        invariant
            i <= 30,
            r@.len() == i,
            forall|j: int| 0 <= j < r@.len() ==> is_printable_ascii(#[trigger] r@[j]),
        decreases 30 - i,
    {
        let b = random_byte_in(33, 127);
        let c = b as char;
        push_char(&mut r, c);
        i += 1;
    }
    r
}

/// What creating a new database does with the master password fields and key file.
#[derive(Debug, PartialEq, Eq, Structural, Clone, Copy)]
pub enum CreateDatabaseOutcome {
    /// The new database is opened.
    Unlocked,
    /// The two master password fields differ.
    PasswordsDontMatch,
    /// Nothing changes: both fields are empty and there is no key file.
    Unchanged,
}

/// A new database opens when the master password is set and entered the same twice, or a key
/// file is chosen; otherwise differing fields are reported.
pub open spec fn create_database_outcome(
    master: Seq<char>,
    reentry: Seq<char>,
    has_key_file: bool,
) -> CreateDatabaseOutcome {
    if (master.len() > 0 && master == reentry) || has_key_file {
        CreateDatabaseOutcome::Unlocked
    } else if master != reentry {
        CreateDatabaseOutcome::PasswordsDontMatch
    } else {
        CreateDatabaseOutcome::Unchanged
    }
}

/// Decides what creating a new database does.
pub fn create_database(master: &str, reentry: &str, has_key_file: bool) -> (r: CreateDatabaseOutcome)
    ensures
        r == create_database_outcome(master@, reentry@, has_key_file),
{
    let same = str_eq(master, reentry);
    let non_empty = crate::text::chars_of(master).len() > 0;
    if (non_empty && same) || has_key_file {
        CreateDatabaseOutcome::Unlocked
    } else if !same {
        CreateDatabaseOutcome::PasswordsDontMatch
    } else {
        CreateDatabaseOutcome::Unchanged
    }
}

} // verus!
