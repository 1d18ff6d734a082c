//! The faces found in the gallery's images: which belong to an image, renaming or ignoring
//! one, the people list and the photos of one person.

use vstd::prelude::*;

use crate::gallery::{holds_same_path, path_texts, sorted_unique_paths, strictly_sorted_paths};
use crate::path_order::{chars_before, lemma_chars_before_order, parent_of, parent_path, same_path};
use crate::paths::{file_name, join_path, path_joined};
use crate::text::str_eq;

verus! {

/// A face found in an image.
pub struct FaceData {
    /// The file name of the image it was found in.
    pub original_filename: String,
    /// The name of the person, once someone named them.
    pub name_of_person: Option<String>,
    /// Whether the face is to be ignored.
    pub is_ignored: bool,
    /// The file name of the face's thumbnail, in the face data folder.
    pub thumbnail_filename: String,
    /// What matching this face to other faces works on.
    pub face_matrix_bytes: Vec<u8>,
    /// The names already checked against this face.
    pub checked_names: Vec<String>,
}

/// The faces file of a folder: for each image file name, a face found in it (or none).
pub type FaceEntries = Vec<(String, Option<FaceData>)>;

/// Where the faces file for the image at `image_path` is: `.face_data/extracted_faces.json`
/// beside it (beside `/` when the path has no parent).
pub open spec fn face_data_file(image_path: Seq<char>) -> Seq<char> {
    let folder = match parent_path(image_path) {
        Some(p) => p,
        None => "/"@,
    };
    path_joined(path_joined(folder, ".face_data"@), "extracted_faces.json"@)
}

/// The path of the faces file for the image at `image_path`.
pub fn face_data_file_of(image_path: &str) -> (r: String)
    ensures
        r@ == face_data_file(image_path@),
{
    let folder = match parent_of(image_path) {
        Some(p) => p,
        None => "/".to_owned(),
    };
    let data = join_path(folder.as_str(), ".face_data");
    join_path(data.as_str(), "extracted_faces.json")
}

/// Entry `i` of `entries` is a face found in the image with file name `name`.
pub open spec fn face_of_image(entries: Seq<(String, Option<FaceData>)>, i: int, name: Seq<char>) -> bool {
    entries[i].0@ == name && entries[i].1 is Some
}

/// The positions, in order, of the faces found in the image at `image_path`.
pub fn faces_in_image(entries: &FaceEntries, image_path: &str) -> (r: Vec<usize>)
    ensures
        match file_name(image_path@) {
            Some(name) => r@.map_values(|i: usize| i as int) == crate::notes::kept_indices(
                |i: int| face_of_image(entries@, i, name),
                entries@.len() as int,
            ),
            None => r@.len() == 0,
        },
{
    let name = match crate::paths::file_name_of(image_path) {
        Some(n) => n,
        None => {
            return Vec::new();
        },
    };
    let ghost keep = |i: int| face_of_image(entries@, i, name@);
    let mut r: Vec<usize> = Vec::new();
    let mut i: usize = 0;
    while i < entries.len()
        invariant
            i <= entries.len(),
            keep == (|i: int| face_of_image(entries@, i, name@)),
            r@.map_values(|i: usize| i as int) == crate::notes::kept_indices(keep, i as int),
        decreases entries.len() - i,
    {
        if str_eq(entries[i].0.as_str(), name.as_str()) && entries[i].1.is_some() {
            r.push(i);
            assert(r@.map_values(|i: usize| i as int) =~= crate::notes::kept_indices(
                keep,
                i as int,
            ).push(i as int));
        }
        i += 1;
    }
    r
}

/// Entry `i` is a face of the image named `name` with the thumbnail `thumbnail`.
pub open spec fn is_face_record(
    entries: Seq<(String, Option<FaceData>)>,
    i: int,
    name: Seq<char>,
    thumbnail: Seq<char>,
) -> bool {
    &&& entries[i].0@ == name
    &&& entries[i].1 matches Some(f) && f.thumbnail_filename@ == thumbnail
}

/// The position of the first face of the image named `name` with the thumbnail `thumbnail`.
pub open spec fn face_record_position(
    entries: Seq<(String, Option<FaceData>)>,
    name: Seq<char>,
    thumbnail: Seq<char>,
) -> Option<int>
    decreases entries.len(),
{
    if entries.len() == 0 {
        None
    } else {
        match face_record_position(entries.drop_last(), name, thumbnail) {
            Some(i) => Some(i),
            None => if is_face_record(entries, entries.len() - 1, name, thumbnail) {
                Some(entries.len() - 1)
            } else {
                None
            },
        }
    }
}

proof fn lemma_face_record_position(
    entries: Seq<(String, Option<FaceData>)>,
    name: Seq<char>,
    thumbnail: Seq<char>,
)
    ensures
        face_record_position(entries, name, thumbnail) matches Some(i) ==> 0 <= i < entries.len()
            && is_face_record(entries, i, name, thumbnail) && forall|j: int|
            0 <= j < i ==> !is_face_record(entries, j, name, thumbnail),
        face_record_position(entries, name, thumbnail) is None ==> forall|j: int|
            0 <= j < entries.len() ==> !is_face_record(entries, j, name, thumbnail),
    decreases entries.len(),
{
    if entries.len() > 0 {
        let init = entries.drop_last();
        lemma_face_record_position(init, name, thumbnail);
        assert forall|j: int| 0 <= j < init.len() implies is_face_record(init, j, name, thumbnail)
            == is_face_record(entries, j, name, thumbnail) by {
            assert(init[j] == entries[j]);
        }
    }
}

/// The file name that a face of the image at `image_path` is recorded under.
pub open spec fn recorded_file_name(image_path: Seq<char>) -> Seq<char> {
    match file_name(image_path) {
        Some(n) => n,
        None => seq![],
    }
}

/// Stores a changed face: the first face of the image at `image_path` with the same thumbnail
/// is replaced by `new_face`. Returns whether there was one; otherwise nothing changes.
pub fn update_face_record(entries: &mut FaceEntries, image_path: &str, new_face: FaceData) -> (found:
    bool)
    ensures
        match face_record_position(
            old(entries)@,
            recorded_file_name(image_path@),
            new_face.thumbnail_filename@,
        ) {
            Some(i) => {
                &&& found
                &&& final(entries)@ == old(entries)@.update(i, (old(entries)@[i].0, Some(new_face)))
            },
            None => !found && final(entries)@ == old(entries)@,
        },
{
    let name = match crate::paths::file_name_of(image_path) {
        Some(n) => n,
        None => String::new(),
    };
    let ghost thumb = new_face.thumbnail_filename@;
    proof {
        lemma_face_record_position(entries@, name@, thumb);
    }
    let mut i: usize = 0;
    while i < entries.len()
        invariant
            i <= entries.len(),
            entries@ == old(entries)@,
            thumb == new_face.thumbnail_filename@,
            name@ == recorded_file_name(image_path@),
            forall|j: int| 0 <= j < i ==> !is_face_record(entries@, j, name@, thumb),
            face_record_position(entries@, name@, thumb) matches Some(k) ==> 0 <= k < entries@.len()
                && is_face_record(entries@, k, name@, thumb) && forall|j: int|
                0 <= j < k ==> !is_face_record(entries@, j, name@, thumb),
            face_record_position(entries@, name@, thumb) is None ==> forall|j: int|
                0 <= j < entries@.len() ==> !is_face_record(entries@, j, name@, thumb),
        decreases entries.len() - i,
    {
        let same_file = str_eq(entries[i].0.as_str(), name.as_str());
        let same_thumb = match &entries[i].1 {
            Some(f) => str_eq(f.thumbnail_filename.as_str(), new_face.thumbnail_filename.as_str()),
            None => false,
        };
        if same_file && same_thumb {
            assert(is_face_record(entries@, i as int, name@, thumb));
            let ghost before = entries@;
            let (file, _old_face) = entries.remove(i);
            entries.insert(i, (file, Some(new_face)));
            assert(entries@ =~= before.update(i as int, (before[i as int].0, Some(new_face))));
            return true;
        }
        i += 1;
    }
    false
}

/// The name a face is listed under: its person's name, or "Unnamed".
pub open spec fn listed_name(f: FaceData) -> Seq<char> {
    match f.name_of_person {
        Some(n) => n@,
        None => "Unnamed"@,
    }
}

/// The people that the faces file `entries` of the folder `folder` lists: for each face that is
/// not ignored, its listed name and its thumbnail's path.
pub open spec fn folder_people(folder: Seq<char>, entries: Seq<(String, Option<FaceData>)>) -> Seq<
    (Seq<char>, Seq<char>),
>
    decreases entries.len(),
{
    if entries.len() == 0 {
        seq![]
    } else {
        let before = folder_people(folder, entries.drop_last());
        match entries.last().1 {
            Some(f) => if f.is_ignored {
                before
            } else {
                before.push(
                    (
                        listed_name(f),
                        path_joined(path_joined(folder, ".face_data"@), f.thumbnail_filename@),
                    ),
                )
            },
            None => before,
        }
    }
}

/// The people that the faces files of `folders` list, folder after folder.
pub open spec fn all_people(folders: Seq<(String, FaceEntries)>) -> Seq<(Seq<char>, Seq<char>)>
    decreases folders.len(),
{
    if folders.len() == 0 {
        seq![]
    } else {
        all_people(folders.drop_last()) + folder_people(
            folders.last().0@,
            folders.last().1@,
        )
    }
}

fn listed_name_of(f: &FaceData) -> (r: String)
    ensures
        r@ == listed_name(*f),
{
    match &f.name_of_person {
        Some(n) => n.clone(),
        None => "Unnamed".to_owned(),
    }
}

fn collect_people(folders: &Vec<(String, FaceEntries)>) -> (r: Vec<(String, String)>)
    ensures
        r@.map_values(|p: (String, String)| (p.0@, p.1@)) == all_people(folders@),
{
    let mut r: Vec<(String, String)> = Vec::new();
    let mut f: usize = 0;
    while f < folders.len()
        invariant
            f <= folders.len(),
            r@.map_values(|p: (String, String)| (p.0@, p.1@)) == all_people(folders@.take(f as int)),
        decreases folders.len() - f,
    {
        assert(folders@.take(f + 1).drop_last() =~= folders@.take(f as int));
        let folder = &folders[f].0;
        let entries = &folders[f].1;
        let ghost base = r@.map_values(|p: (String, String)| (p.0@, p.1@));
        let data_folder = join_path(folder.as_str(), ".face_data");
        let mut e: usize = 0;
        while e < entries.len()
            invariant
                e <= entries.len(),
                data_folder@ == path_joined(folder@, ".face_data"@),
                r@.map_values(|p: (String, String)| (p.0@, p.1@)) == base + folder_people(
                    folder@,
                    entries@.take(e as int),
                ),
            decreases entries.len() - e,
        {
            assert(entries@.take(e + 1).drop_last() =~= entries@.take(e as int));
            match &entries[e].1 {
                Some(face) => {
                    if !face.is_ignored {
                        let name = listed_name_of(face);
                        let thumb = join_path(data_folder.as_str(), face.thumbnail_filename.as_str());
                        let ghost prev = r@.map_values(|p: (String, String)| (p.0@, p.1@));
                        r.push((name, thumb));
                        assert(r@.map_values(|p: (String, String)| (p.0@, p.1@)) =~= prev.push(
                            (listed_name(*face), path_joined(data_folder@, face.thumbnail_filename@)),
                        ));
                    }
                },
                None => {},
            }
            e += 1;
        }
        assert(entries@.take(entries.len() as int) =~= entries@);
        f += 1;
    }
    assert(folders@.take(folders.len() as int) =~= folders@);
    r
}

/// The names of `people`, in order.
pub open spec fn listed_names(people: Seq<(String, String)>) -> Seq<Seq<char>> {
    people.map_values(|p: (String, String)| p.0@)
}

/// The names of `people` increase strictly, so no name appears twice.
pub open spec fn names_strictly_sorted(people: Seq<(String, String)>) -> bool {
    forall|i: int, j: int| 0 <= i < j < people.len() ==> chars_before(people[i].0@, people[j].0@)
}

/// Adds `person` to `out`, kept in increasing order of names, unless the name is there
/// already. Returns where it was put.
fn insert_person_sorted(out: &mut Vec<(String, String)>, person: (String, String)) -> (r: Option<
    usize,
>)
    requires
        names_strictly_sorted(old(out)@),
    ensures
        names_strictly_sorted(final(out)@),
        match r {
            Some(pos) => pos <= old(out)@.len() && final(out)@ == old(out)@.insert(pos as int, person),
            None => final(out)@ == old(out)@ && exists|k: int|
                0 <= k < old(out)@.len() && #[trigger] old(out)@[k].0@ == person.0@,
        },
{
    let mut pos: usize = 0;
    while pos < out.len() && name_before(out[pos].0.as_str(), person.0.as_str())
        invariant
            pos <= out.len(),
            out@ == old(out)@,
            names_strictly_sorted(out@),
            forall|k: int| 0 <= k < pos ==> chars_before(#[trigger] out@[k].0@, person.0@),
        decreases out.len() - pos,
    {
        pos += 1;
    }
    if pos < out.len() && str_eq(out[pos].0.as_str(), person.0.as_str()) {
        assert(out@[pos as int].0@ == person.0@);
        return None;
    }
    let ghost before = out@;
    let ghost pv = person;
    proof {
        if pos < before.len() {
            lemma_chars_before_order(before[pos as int].0@, person.0@, person.0@);
            assert(chars_before(person.0@, before[pos as int].0@));
        }
    }
    out.insert(pos, person);
    proof {
        assert(out@[pos as int] == pv);
        assert forall|i: int, j: int| 0 <= i < j < out@.len() implies chars_before(
            out@[i].0@,
            out@[j].0@,
        ) by {
            if j < pos {
                assert(out@[i] == before[i] && out@[j] == before[j]);
            } else if j == pos {
                assert(out@[i] == before[i]);
            } else {
                assert(out@[j] == before[j - 1]);
                assert(chars_before(pv.0@, before[j - 1].0@)) by {
                    if j - 1 > pos {
                        lemma_chars_before_order(pv.0@, before[pos as int].0@, before[j - 1].0@);
                    }
                }
                if i < pos {
                    assert(out@[i] == before[i]);
                    lemma_chars_before_order(before[i].0@, pv.0@, before[j - 1].0@);
                } else if i > pos {
                    assert(out@[i] == before[i - 1]);
                }
            }
        }
    }
    Some(pos)
}

fn name_before(a: &str, b: &str) -> (r: bool)
    ensures
        r == chars_before(a@, b@),
{
    let ac = crate::text::chars_of(a);
    let bc = crate::text::chars_of(b);
    chars_less(&ac, &bc)
}

fn chars_less(a: &Vec<char>, b: &Vec<char>) -> (r: bool)
    ensures
        r == chars_before(a@, b@),
{
    let mut i: usize = 0;
    assert(a@.skip(0) =~= a@);
    assert(b@.skip(0) =~= b@);
    loop
        invariant
            i <= a.len(),
            i <= b.len(),
            chars_before(a@, b@) == chars_before(a@.skip(i as int), b@.skip(i as int)),
        decreases a.len() - i,
    {
        if i == a.len() {
            return i < b.len();
        }
        if i == b.len() {
            return false;
        }
        if a[i] != b[i] {
            return a[i] < b[i];
        }
        assert(a@.skip(i as int).drop_first() =~= a@.skip(i + 1));
        assert(b@.skip(i as int).drop_first() =~= b@.skip(i + 1));
        i += 1;
    }
}

proof fn lemma_people_result(
    folders: Seq<(String, FaceEntries)>,
    people: Seq<(String, String)>,
    out: Seq<(String, String)>,
    src: Seq<int>,
    cover: Seq<int>,
)
    requires
        people.map_values(|p: (String, String)| (p.0@, p.1@)) == all_people(folders),
        src.len() == out.len(),
        forall|k: int|
            0 <= k < out.len() ==> 0 <= #[trigger] src[k] < people.len() && people[src[k]] == out[k],
        cover.len() == people.len(),
        forall|m: int|
            0 <= m < people.len() ==> 0 <= #[trigger] cover[m] < out.len() && out[cover[m]].0@
                == people[m].0@,
    ensures
        forall|k: int| 0 <= k < out.len() ==> all_people(folders).contains((#[trigger] out[k].0@, out[k].1@)),
        forall|m: int|
            0 <= m < all_people(folders).len() ==> listed_names(out).contains(
                #[trigger] all_people(folders)[m].0,
            ),
{
    assert(all_people(folders).len() == people.len());
    assert forall|k: int| 0 <= k < out.len() implies all_people(folders).contains(
        (#[trigger] out[k].0@, out[k].1@),
    ) by {
        let m = src[k];
        assert(all_people(folders)[m] == (out[k].0@, out[k].1@));
    }
    assert forall|m: int| 0 <= m < all_people(folders).len() implies listed_names(out).contains(
        #[trigger] all_people(folders)[m].0,
    ) by {
        assert(all_people(folders)[m].0 == people[m].0@);
        let k = cover[m];
        assert(listed_names(out)[k] == all_people(folders)[m].0);
    }
}

/// The people that the faces of `folders` (each folder's path with its faces file) show:
/// each listed name once, in increasing order, with the thumbnail of one of its faces.
pub fn get_named_people_for_display(folders: &Vec<(String, FaceEntries)>) -> (r: Vec<(String, String)>)
    ensures
        names_strictly_sorted(r@),
        forall|k: int|
            0 <= k < r@.len() ==> all_people(folders@).contains((#[trigger] r@[k].0@, r@[k].1@)),
        forall|m: int|
            0 <= m < all_people(folders@).len() ==> listed_names(r@).contains(
                #[trigger] all_people(folders@)[m].0,
            ),
{
    let people = collect_people(folders);
    let ghost all = people@.map_values(|p: (String, String)| (p.0@, p.1@));
    let mut out: Vec<(String, String)> = Vec::new();
    let ghost mut src: Seq<int> = seq![];
    let ghost mut cover: Seq<int> = seq![];
    let mut i: usize = 0;
    while i < people.len()
        invariant
            i <= people.len(),
            all == people@.map_values(|p: (String, String)| (p.0@, p.1@)),
            all == all_people(folders@),
            names_strictly_sorted(out@),
            src.len() == out@.len(),
            forall|k: int|
                0 <= k < out@.len() ==> 0 <= #[trigger] src[k] < i && people@[src[k]] == out@[k],
            cover.len() == i,
            forall|m: int|
                0 <= m < i ==> 0 <= #[trigger] cover[m] < out@.len() && out@[cover[m]].0@
                    == people@[m].0@,
        decreases people.len() - i,
    {
        let person = (people[i].0.clone(), people[i].1.clone());
        assert(person == people@[i as int]);
        let ghost before = out@;
        match insert_person_sorted(&mut out, person) {
            Some(pos) => {
                proof {
                    let old_src = src;
                    let old_cover = cover;
                    src = old_src.insert(pos as int, i as int);
                    cover = Seq::new(
                        i as nat,
                        |m: int|
                            if old_cover[m] >= pos {
                                old_cover[m] + 1
                            } else {
                                old_cover[m]
                            },
                    ).push(pos as int);
                    assert forall|k: int| 0 <= k < out@.len() implies 0 <= #[trigger] src[k] < i + 1
                        && people@[src[k]] == out@[k] by {
                        if k < pos {
                            assert(out@[k] == before[k]);
                            assert(src[k] == old_src[k]);
                        } else if k > pos {
                            assert(out@[k] == before[k - 1]);
                            assert(src[k] == old_src[k - 1]);
                        }
                    }
                    assert forall|m: int| 0 <= m < i + 1 implies 0 <= #[trigger] cover[m]
                        < out@.len() && out@[cover[m]].0@ == people@[m].0@ by {
                        if m < i {
                            let c = old_cover[m];
                            if c >= pos {
                                assert(out@[c + 1] == before[c]);
                            } else {
                                assert(out@[c] == before[c]);
                            }
                        } else {
                            assert(out@[pos as int] == person);
                        }
                    }
                }
            },
            None => {
                proof {
                    let k = choose|k: int| 0 <= k < before.len() && #[trigger] before[k].0@ == people@[i as int].0@;
                    cover = cover.push(k);
                    assert forall|m: int| 0 <= m < i + 1 implies 0 <= #[trigger] cover[m]
                        < out@.len() && out@[cover[m]].0@ == people@[m].0@ by {
                        if m < i {
                        }
                    }
                }
            },
        }
        i += 1;
    }
    proof {
        lemma_people_result(folders@, people@, out@, src, cover);
    }
    out
}

/// Face `f`, when it is not ignored, is of the person `target` ("Unnamed" meaning nobody
/// named it).
pub open spec fn face_shows(f: FaceData, target: Seq<char>) -> bool {
    &&& !f.is_ignored
    &&& match f.name_of_person {
        Some(n) => n@ == target,
        None => target == "Unnamed"@,
    }
}

/// The images of the faces file `entries` of folder `folder` that show `target`.
pub open spec fn folder_photos(
    folder: Seq<char>,
    entries: Seq<(String, Option<FaceData>)>,
    target: Seq<char>,
) -> Seq<Seq<char>>
    decreases entries.len(),
{
    if entries.len() == 0 {
        seq![]
    } else {
        let before = folder_photos(folder, entries.drop_last(), target);
        match entries.last().1 {
            Some(f) => if face_shows(f, target) {
                before.push(path_joined(folder, f.original_filename@))
            } else {
                before
            },
            None => before,
        }
    }
}

/// The images of all the faces files of `folders` that show `target`, folder after folder.
pub open spec fn all_photos(folders: Seq<(String, FaceEntries)>, target: Seq<char>) -> Seq<Seq<char>>
    decreases folders.len(),
{
    if folders.len() == 0 {
        seq![]
    } else {
        all_photos(folders.drop_last(), target) + folder_photos(
            folders.last().0@,
            folders.last().1@,
            target,
        )
    }
}

fn face_shows_exec(f: &FaceData, target: &str) -> (b: bool)
    ensures
        b == face_shows(*f, target@),
{
    if f.is_ignored {
        return false;
    }
    match &f.name_of_person {
        Some(n) => str_eq(n.as_str(), target),
        None => str_eq(target, "Unnamed"),
    }
}

fn collect_photos(folders: &Vec<(String, FaceEntries)>, target: &str) -> (r: Vec<String>)
    ensures
        path_texts(r@) == all_photos(folders@, target@),
{
    let mut r: Vec<String> = Vec::new();
    let mut f: usize = 0;
    while f < folders.len()
        invariant
            f <= folders.len(),
            r@.map_values(|p: String| p@) == all_photos(folders@.take(f as int), target@),
        decreases folders.len() - f,
    {
        assert(folders@.take(f + 1).drop_last() =~= folders@.take(f as int));
        let folder = &folders[f].0;
        let entries = &folders[f].1;
        let ghost base = r@.map_values(|p: String| p@);
        let mut e: usize = 0;
        while e < entries.len()
            invariant
                e <= entries.len(),
                r@.map_values(|p: String| p@) == base + folder_photos(
                    folder@,
                    entries@.take(e as int),
                    target@,
                ),
            decreases entries.len() - e,
        {
            assert(entries@.take(e + 1).drop_last() =~= entries@.take(e as int));
            match &entries[e].1 {
                Some(face) => {
                    if face_shows_exec(face, target) {
                        let photo = join_path(folder.as_str(), face.original_filename.as_str());
                        let ghost prev = r@.map_values(|p: String| p@);
                        r.push(photo);
                        assert(r@.map_values(|p: String| p@) =~= prev.push(
                            path_joined(folder@, face.original_filename@),
                        ));
                    }
                },
                None => {},
            }
            e += 1;
        }
        assert(entries@.take(entries.len() as int) =~= entries@);
        f += 1;
    }
    assert(folders@.take(folders.len() as int) =~= folders@);
    r
}

/// The images that show the person `target_name` in the faces files of `folders` (each
/// folder's path with its faces file), in increasing path order, each image once.
pub fn get_all_photos_by_name(target_name: &str, folders: &Vec<(String, FaceEntries)>) -> (r: Vec<
    String,
>)
    ensures
        strictly_sorted_paths(r@),
        forall|k: int|
            0 <= k < r@.len() ==> all_photos(folders@, target_name@).contains(#[trigger] r@[k]@),
        forall|m: int|
            0 <= m < all_photos(folders@, target_name@).len() ==> holds_same_path(
                r@,
                #[trigger] all_photos(folders@, target_name@)[m],
            ),
{
    let photos = collect_photos(folders, target_name);
    let r = sorted_unique_paths(&photos);
    proof {
        let all = all_photos(folders@, target_name@);
        assert(path_texts(photos@) == all);
        assert forall|m: int| 0 <= m < all.len() implies holds_same_path(r@, #[trigger] all[m]) by {
            assert(all[m] == photos@[m]@);
            assert(holds_same_path(r@, photos@[m]@));
        }
    }
    r
}

} // verus!
