//! The gallery: which files it shows, how they are laid out in rows, moving between images,
//! thumbnails, and the faces recognised in the images.

use vstd::prelude::*;

use crate::path_order::{
    chars_before, lemma_path_order, parent_of, parent_path, path_before, path_order, same_path,
    PathOrder,
};
use crate::paths::{file_extension, file_name, path_joined};
use crate::text::str_eq;

verus! {

/// How many images a gallery row holds.
pub const NUM_IMAGES_IN_ROW: usize = 4;

/// How many rows are loaded when the gallery opens.
pub const ROW_BATCH_SIZE: usize = 10;

/// The side of a thumbnail, in pixels.
pub const THUMBNAIL_SIZE: u32 = 200;

/// The name shown for a face nobody has named.
pub const UNNAMED_STRING: &'static str = "Unnamed";

/// The folder, beside the images, that holds their thumbnails.
pub const THUMBNAIL_FOLDER_NAME: &'static str = ".thumbnails";

/// The folder, beside the images, that holds the faces found in them.
pub const FACE_DATA_FOLDER_NAME: &'static str = ".face_data";

/// The file, in the face data folder, that lists the faces found.
pub const FACE_DATA_FILE_NAME: &'static str = "extracted_faces.json";

/// The gallery shows `.jpg`, `.jpeg` and `.png` files.
pub open spec fn is_gallery_image(path: Seq<char>) -> bool {
    file_extension(path) == Some("jpg"@) || file_extension(path) == Some("jpeg"@)
        || file_extension(path) == Some("png"@)
}

/// Whether the gallery shows the file at `path`.
pub fn is_gallery_image_exec(path: &str) -> (b: bool)
    ensures
        b == is_gallery_image(path@),
{
    match crate::paths::extension_of(path) {
        Some(e) => str_eq(e.as_str(), "jpg") || str_eq(e.as_str(), "jpeg") || str_eq(
            e.as_str(),
            "png",
        ),
        None => false,
    }
}

/// The folder walk enters and lists an entry only when it has a name that does not start
/// with `.` (so thumbnails, face data and other hidden files are skipped).
pub open spec fn walk_keeps(path: Seq<char>) -> bool {
    &&& file_name(path) != Some(".thumbnails"@)
    &&& file_name(path) != Some(".face_data"@)
    &&& file_name(path) matches Some(n) && !(n.len() > 0 && n[0] == '.')
}

/// Whether the folder walk keeps the entry at `path`.
pub fn walk_keeps_exec(path: &str) -> (b: bool)
    ensures
        b == walk_keeps(path@),
{
    match crate::paths::file_name_of(path) {
        Some(n) => {
            let cs = crate::text::chars_of(n.as_str());
            let hidden = cs.len() > 0 && cs[0] == '.';
            proof {
                reveal_strlit(".thumbnails");
                reveal_strlit(".face_data");
                if !hidden {
                    assert(n@ != ".thumbnails"@) by {
                        assert(".thumbnails"@[0] == '.');
                    }
                    assert(n@ != ".face_data"@) by {
                        assert(".face_data"@[0] == '.');
                    }
                }
            }
            !hidden
        },
        None => false,
    }
}

/// The square, centred on the image's longer side, that a thumbnail is cut from: its left
/// and top edges and its side, for an image `width` by `height` pixels.
pub open spec fn thumbnail_square(width: u32, height: u32) -> (u32, u32, u32, u32) {
    if height > width {
        (0, (height / 2 - width / 2) as u32, width, width)
    } else {
        ((width / 2 - height / 2) as u32, 0, height, height)
    }
}

/// The part of a `width` by `height` image that its thumbnail shows: x, y, width, height.
pub fn thumbnail_crop(width: u32, height: u32) -> (r: (u32, u32, u32, u32))
    ensures
        r == thumbnail_square(width, height),
        r.2 == r.3,
        r.0 + r.2 <= width,
        r.1 + r.3 <= height,
{
    if height > width {
        (0, height / 2 - width / 2, width, width)
    } else {
        (width / 2 - height / 2, 0, height, height)
    }
}

/// Where the thumbnail of the image at `image_path` is kept: in `.thumbnails` beside it (beside
/// `/` when the path has no parent), under the image's file name; `None` without a file name.
pub open spec fn thumbnail_file(image_path: Seq<char>) -> Option<Seq<char>> {
    match file_name(image_path) {
        Some(name) => {
            let folder = match parent_path(image_path) {
                Some(p) => p,
                None => "/"@,
            };
            Some(path_joined(path_joined(folder, ".thumbnails"@), name))
        },
        None => None,
    }
}

/// The path of the thumbnail of the image at `image_path`, if the image has a file name.
pub fn thumbnail_file_of(image_path: &str) -> (r: Option<String>)
    ensures
        thumbnail_file(image_path@) == (match r {
            Some(s) => Some(s@),
            None => None,
        }),
{
    match crate::paths::file_name_of(image_path) {
        Some(name) => {
            let folder = match parent_of(image_path) {
                Some(p) => p,
                None => "/".to_owned(),
            };
            let thumbs = crate::paths::join_path(folder.as_str(), ".thumbnails");
            Some(crate::paths::join_path(thumbs.as_str(), name.as_str()))
        },
        None => None,
    }
}

/// A row of the gallery: its position and the images it shows.
pub struct ImageRow {
    pub is_loaded: bool,
    pub index: usize,
    pub image_paths: Vec<String>,
}

/// The images of row `k` when `n` images are laid out four to a row.
pub open spec fn row_span(n: int, k: int) -> (int, int) {
    (4 * k, if 4 * k + 4 < n {
        4 * k + 4
    } else {
        n
    })
}

/// The number of rows `n` images take, four to a row.
pub open spec fn row_count(n: int) -> int {
    (n + 3) / 4
}

/// Row `row` is the `k`-th row of `paths`, not loaded.
pub open spec fn row_holds(row: ImageRow, k: int, paths: Seq<String>) -> bool {
    &&& row.index == k
    &&& !row.is_loaded
    &&& row.image_paths@ == paths.subrange(row_span(paths.len() as int, k).0, row_span(paths.len() as int, k).1)
}

/// Lays the images out in rows of four (the last row may hold fewer), none of them loaded.
pub fn image_rows(paths: &Vec<String>) -> (r: Vec<ImageRow>)
    ensures
        r@.len() == row_count(paths@.len() as int),
        forall|k: int| 0 <= k < r@.len() ==> row_holds(#[trigger] r@[k], k, paths@),
{
    let n = paths.len();
    let count = n / 4 + if n % 4 == 0 {
        0
    } else {
        1
    };
    assert(count == row_count(n as int));
    let mut rows: Vec<ImageRow> = Vec::new();
    let mut k: usize = 0;
    while k < count
        invariant
            n == paths.len(),
            n == paths@.len(),
            count == row_count(n as int),
            k <= count,
            rows@.len() == k,
            forall|m: int|
                0 <= m < rows@.len() ==> row_holds(#[trigger] rows@[m], m, paths@),
        decreases count - k,
    {
        assert(4 * k < n) by (nonlinear_arith)
            requires
                k < count,
                count == (n + 3) / 4,
        ;
        let start = 4 * k;
        let end = if n - start > 4 {
            start + 4
        } else {
            n
        };
        let mut row_paths: Vec<String> = Vec::new();
        let mut j = start;
        while j < end
            invariant
                start <= j <= end <= paths.len(),
                row_paths@ == paths@.subrange(start as int, j as int),
            decreases end - j,
        {
            row_paths.push(paths[j].clone());
            assert(row_paths@ =~= paths@.subrange(start as int, j + 1));
            j += 1;
        }
        rows.push(ImageRow { is_loaded: false, index: k, image_paths: row_paths });
        k += 1;
    }
    rows
}

/// Laying images out in rows loses and repeats none: the rows, read in order, give back the
/// images.
pub proof fn lemma_rows_cover_images(n: int, k: int)
    requires
        0 <= n,
        0 <= k < row_count(n),
    ensures
        row_span(n, k).0 < row_span(n, k).1,
        row_span(n, k).1 - row_span(n, k).0 <= 4,
        k + 1 < row_count(n) ==> row_span(n, k).1 == row_span(n, k + 1).0,
        k + 1 == row_count(n) ==> row_span(n, k).1 == n,
        k == 0 ==> row_span(n, k).0 == 0,
{
}

/// The rows loaded when the gallery opens: the first ten.
pub fn rows_loaded_on_open(row_total: usize) -> (r: Vec<usize>)
    ensures
        r@.len() == (if row_total < 10 {
            row_total as int
        } else {
            10
        }),
        forall|k: int| 0 <= k < r@.len() ==> #[trigger] r@[k] == k,
{
    let end = if row_total < ROW_BATCH_SIZE {
        row_total
    } else {
        ROW_BATCH_SIZE
    };
    let mut r: Vec<usize> = Vec::new();
    let mut i: usize = 0;
    while i < end
        invariant
            i <= end,
            end <= 10,
            r@.len() == i,
            forall|k: int| 0 <= k < r@.len() ==> #[trigger] r@[k] == k,
        decreases end - i,
    {
        r.push(i);
        i += 1;
    }
    r
}

/// The rows from `start` that a view of `count` rows shows, of `total` rows, in order.
pub open spec fn row_range(start: int, count: int, total: int) -> Seq<int> {
    let end = if start + count < total {
        start + count
    } else {
        total
    };
    if end <= start {
        seq![]
    } else {
        Seq::new((end - start) as nat, |i: int| start + i)
    }
}

/// The numbers of `v`.
pub open spec fn as_ints(v: Seq<usize>) -> Seq<int> {
    v.map_values(|x: usize| x as int)
}

fn window_rows(start: usize, count: usize, total: usize) -> (r: Vec<usize>)
    ensures
        as_ints(r@) == row_range(start as int, count as int, total as int),
{
    let mut r: Vec<usize> = Vec::new();
    if start >= total {
        assert(as_ints(r@) =~= row_range(start as int, count as int, total as int));
        return r;
    }
    let end = if count > total - start {
        total
    } else {
        start + count
    };
    let mut k = start;
    while k < end
        invariant
            start <= k <= end <= total,
            end == (if start + count < total {
                start + count
            } else {
                total as int
            }),
            as_ints(r@) =~= Seq::new((k - start) as nat, |i: int| start + i),
        decreases end - k,
    {
        let ghost prev = as_ints(r@);
        r.push(k);
        assert(as_ints(r@) =~= prev.push(k as int));
        assert(prev.push(k as int) =~= Seq::new((k + 1 - start) as nat, |i: int| start + i));
        k += 1;
    }
    assert(as_ints(r@) =~= row_range(start as int, count as int, total as int));
    r
}

/// When the gallery is scrolled so that `scrolled_past` rows lie above the view, which holds
/// `displayed` rows, the rows to load (those now in view) and to unload (those that were in
/// view from `first_loaded` on and are no longer), in order; nothing when the first row in
/// view did not change.
pub fn rows_to_reload(first_loaded: usize, scrolled_past: usize, displayed: usize, total: usize) -> (r:
    Option<(Vec<usize>, Vec<usize>)>)
    ensures
        first_loaded == scrolled_past ==> r is None,
        first_loaded != scrolled_past ==> (r matches Some((load, unload)) && {
            &&& as_ints(load@) == row_range(scrolled_past as int, displayed as int, total as int)
            &&& as_ints(unload@) == row_range(
                first_loaded as int,
                displayed as int,
                total as int,
            ).filter(|k: int| !row_range(scrolled_past as int, displayed as int, total as int).contains(k))
        }),
{
    if first_loaded == scrolled_past {
        return None;
    }
    let load = window_rows(scrolled_past, displayed, total);
    let old_rows = window_rows(first_loaded, displayed, total);
    let ghost in_view = row_range(scrolled_past as int, displayed as int, total as int);
    let ghost keep = |k: int| !in_view.contains(k);
    let ghost old_view = as_ints(old_rows@);
    let mut unload: Vec<usize> = Vec::new();
    let mut i: usize = 0;
    assert(old_view.take(0) =~= Seq::<int>::empty());
    proof {
        reveal(Seq::filter);
    }
    while i < old_rows.len()
        invariant
            i <= old_rows.len(),
            old_view == as_ints(old_rows@),
            as_ints(load@) == in_view,
            keep == (|k: int| !in_view.contains(k)),
            as_ints(unload@) == old_view.take(i as int).filter(keep),
        decreases old_rows.len() - i,
    {
        let row = old_rows[i];
        let mut in_load = false;
        let mut j: usize = 0;
        while j < load.len()
            invariant
                j <= load.len(),
                in_load == exists|m: int| 0 <= m < j && load@[m] == row,
            decreases load.len() - j,
        {
            if load[j] == row {
                in_load = true;
            }
            j += 1;
        }
        proof {
            if in_load {
                let m = choose|m: int| 0 <= m < load.len() && load@[m] == row;
                assert(as_ints(load@)[m] == row as int);
                assert(in_view.contains(row as int));
            } else {
                if in_view.contains(row as int) {
                    let m = choose|m: int| 0 <= m < in_view.len() && in_view[m] == row as int;
                    assert(as_ints(load@)[m] == load@[m] as int);
                    assert(load@[m] == row);
                }
            }
        }
        assert(old_view.take(i + 1) =~= old_view.take(i as int).push(row as int));
        proof {
            old_view.take(i as int).lemma_filter_push(row as int, keep);
        }
        if !in_load {
            unload.push(row);
            assert(as_ints(unload@) =~= old_view.take(i as int).filter(keep).push(row as int));
        }
        i += 1;
    }
    assert(old_view.take(old_rows.len() as int) =~= old_view);
    Some((load, unload))
}

/// The position of the first of `paths` that is the same path as `p`, if any.
pub open spec fn path_position(paths: Seq<String>, p: Seq<char>) -> Option<int>
    decreases paths.len(),
{
    if paths.len() == 0 {
        None
    } else {
        match path_position(paths.drop_last(), p) {
            Some(i) => Some(i),
            None => if same_path(paths.last()@, p) {
                Some(paths.len() - 1)
            } else {
                None
            },
        }
    }
}

proof fn lemma_path_position(paths: Seq<String>, p: Seq<char>)
    ensures
        path_position(paths, p) matches Some(i) ==> 0 <= i < paths.len() && same_path(
            paths[i]@,
            p,
        ) && forall|j: int| 0 <= j < i ==> !same_path(paths[j]@, p),
        path_position(paths, p) is None ==> forall|j: int|
            0 <= j < paths.len() ==> !same_path(paths[j]@, p),
    decreases paths.len(),
{
    if paths.len() > 0 {
        let init = paths.drop_last();
        lemma_path_position(init, p);
        assert forall|j: int| 0 <= j < init.len() implies init[j] == paths[j] by {}
    }
}

fn find_path(paths: &Vec<String>, p: &str) -> (r: Option<usize>)
    ensures
        path_position(paths@, p@) == (match r {
            Some(i) => Some(i as int),
            None => None,
        }),
        r matches Some(i) ==> i < paths.len(),
{
    proof {
        lemma_path_position(paths@, p@);
    }
    let mut i: usize = 0;
    while i < paths.len()
        invariant
            i <= paths.len(),
            forall|j: int| 0 <= j < i ==> !same_path(paths@[j]@, p@),
            path_position(paths@, p@) matches Some(k) ==> 0 <= k < paths.len() && same_path(
                paths@[k]@,
                p@,
            ) && forall|j: int| 0 <= j < k ==> !same_path(paths@[j]@, p@),
            path_position(paths@, p@) is None ==> forall|j: int|
                0 <= j < paths.len() ==> !same_path(paths@[j]@, p@),
        decreases paths.len() - i,
    {
        match path_order(paths[i].as_str(), p) {
            PathOrder::Same => {
                return Some(i);
            },
            _ => {},
        }
        i += 1;
    }
    None
}

/// In a list of images that are all different paths, moving on from an image that has a
/// next one and then back lands on the image moved from.
pub proof fn lemma_next_then_previous(paths: Seq<String>, current: Seq<char>)
    requires
        forall|i: int, j: int|
            0 <= i < j < paths.len() ==> !same_path(#[trigger] paths[i]@, #[trigger] paths[j]@),
        path_position(paths, current) matches Some(i) && i + 1 < paths.len(),
    ensures
        ({
            let i = path_position(paths, current)->0;
            &&& path_position(paths, paths[i + 1]@) == Some(i + 1)
            &&& same_path(paths[i]@, current)
        }),
{
    lemma_path_position(paths, current);
    let i = path_position(paths, current)->0;
    let next = paths[i + 1]@;
    lemma_path_position(paths, next);
    assert(same_path(paths[i + 1]@, next));
    match path_position(paths, next) {
        Some(j) => {
            if j < i + 1 {
                assert(!same_path(paths[j]@, paths[i + 1]@));
            }
        },
        None => {},
    }
}

/// The image shown before the current one: the one before it in the list, or itself when it
/// is first; nothing when the current image is not in the list.
pub fn previous_image_index(paths: &Vec<String>, current: &str) -> (r: Option<usize>)
    ensures
        r matches Some(k) ==> k < paths@.len(),
        path_position(paths@, current@) matches Some(i) ==> 0 <= i < paths@.len(),
        match path_position(paths@, current@) {
            Some(i) => r == Some((if i > 0 {
                i - 1
            } else {
                0
            }) as usize),
            None => r is None,
        },
{
    match find_path(paths, current) {
        Some(i) => Some(i.saturating_sub(1)),
        None => None,
    }
}

/// The image shown after the current one: the next one in the list, if there is one.
pub fn next_image_index(paths: &Vec<String>, current: &str) -> (r: Option<usize>)
    ensures
        r matches Some(k) ==> k < paths@.len(),
        path_position(paths@, current@) matches Some(i) ==> 0 <= i < paths@.len(),
        match path_position(paths@, current@) {
            Some(i) => if i + 1 < paths@.len() {
                r == Some((i + 1) as usize)
            } else {
                r is None
            },
            None => r is None,
        },
{
    match find_path(paths, current) {
        Some(i) => {
            if i + 1 < paths.len() {
                Some(i + 1)
            } else {
                None
            }
        },
        None => None,
    }
}

/// `paths` are in increasing path order, so no path appears twice.
pub open spec fn strictly_sorted_paths(paths: Seq<String>) -> bool {
    forall|i: int, j: int| 0 <= i < j < paths.len() ==> path_before(paths[i]@, paths[j]@)
}

/// The texts of `paths`, in order.
pub open spec fn path_texts(paths: Seq<String>) -> Seq<Seq<char>> {
    paths.map_values(|p: String| p@)
}

/// Paths with their modification times, as texts.
pub open spec fn timed_texts(v: Seq<(String, i64)>) -> Seq<(Seq<char>, i64)> {
    v.map_values(|p: (String, i64)| (p.0@, p.1))
}

/// The times never increase along `s`: newest first.
pub open spec fn newest_first(s: Seq<(Seq<char>, i64)>) -> bool {
    forall|i: int, j: int| 0 <= i < j < s.len() ==> #[trigger] s[i].1 >= #[trigger] s[j].1
}

/// `paths` are those of `timed`, newest first.
pub open spec fn ordered_newest_first(paths: Seq<Seq<char>>, timed: Seq<(Seq<char>, i64)>) -> bool {
    exists|s: Seq<(Seq<char>, i64)>|
        #![trigger newest_first(s)]
        newest_first(s) && s.to_multiset() == timed.to_multiset() && paths == s.map_values(
            |p: (Seq<char>, i64)| p.0,
        )
}

/// Sorts paths by their modification times, newest first.
pub fn sort_newest_first(v: Vec<(String, i64)>) -> (r: Vec<(String, i64)>)
    ensures
        newest_first(timed_texts(r@)),
        timed_texts(r@).to_multiset() == timed_texts(v@).to_multiset(),
{
    broadcast use vstd::seq_lib::group_to_multiset_ensures;

    let ghost v0 = v@;
    let mut v = v;
    let mut r: Vec<(String, i64)> = Vec::new();
    assert(timed_texts(r@) =~= Seq::<(Seq<char>, i64)>::empty());
    while v.len() > 0
        invariant
            newest_first(timed_texts(r@)),
            timed_texts(r@).to_multiset().add(timed_texts(v@).to_multiset()) == timed_texts(
                v0,
            ).to_multiset(),
        decreases v.len(),
    {
        let ghost before = v@;
        let x = v.pop().unwrap();
        proof {
            assert(before =~= v@.push(x));
            assert(timed_texts(before) =~= timed_texts(v@).push((x.0@, x.1)));
        }
        let mut j: usize = 0;
        while j < r.len() && r[j].1 > x.1
            invariant
                j <= r.len(),
                forall|k: int| 0 <= k < j ==> r@[k].1 > x.1,
            decreases r.len() - j,
        {
            j += 1;
        }
        let ghost old_r = r@;
        r.insert(j, x);
        proof {
            let xv = (x.0@, x.1);
            assert(timed_texts(r@) =~= timed_texts(old_r).insert(j as int, xv));
            vstd::seq_lib::to_multiset_insert(timed_texts(old_r), j as int, xv);
            vstd::seq_lib::to_multiset_build(timed_texts(v@), xv);
            assert(timed_texts(r@).to_multiset().add(timed_texts(v@).to_multiset()) =~= timed_texts(
                old_r,
            ).to_multiset().add(timed_texts(before).to_multiset()));
            let t = timed_texts(r@);
            assert forall|a: int, b: int| 0 <= a < b < t.len() implies #[trigger] t[a].1
                >= #[trigger] t[b].1 by {
                let ot = timed_texts(old_r);
                if a < j && b < j {
                    assert(t[a] == ot[a] && t[b] == ot[b]);
                } else if a < j && b == j {
                    assert(t[a] == ot[a]);
                } else if a < j {
                    assert(t[a] == ot[a] && t[b] == ot[b - 1]);
                } else if a == j {
                    assert(t[b] == ot[b - 1]);
                    assert(ot[j as int].1 <= x.1);
                } else {
                    assert(t[a] == ot[a - 1] && t[b] == ot[b - 1]);
                }
            }
        }
    }
    r
}

/// One of `paths` is the same path as `p`.
pub open spec fn holds_same_path(paths: Seq<String>, p: Seq<char>) -> bool {
    exists|k: int| 0 <= k < paths.len() && same_path(#[trigger] paths[k]@, p)
}

/// Adds `item` to the sorted `out`, unless the same path is already there. Returns where the
/// same path as `item` now stands in `out`, and whether `item` was put there.
fn insert_path_sorted(out: &mut Vec<String>, item: String) -> (r: (usize, bool))
    requires
        strictly_sorted_paths(old(out)@),
    ensures
        strictly_sorted_paths(final(out)@),
        r.0 < final(out)@.len(),
        same_path(final(out)@[r.0 as int]@, item@),
        r.1 ==> r.0 <= old(out)@.len() && final(out)@ == old(out)@.insert(r.0 as int, item),
        !r.1 ==> final(out)@ == old(out)@,
{
    let mut pos: usize = 0;
    while pos < out.len() && path_order(out[pos].as_str(), item.as_str()) == PathOrder::Before
        invariant
            pos <= out.len(),
            out@ == old(out)@,
            strictly_sorted_paths(out@),
            forall|k: int| 0 <= k < pos ==> path_before(#[trigger] out@[k]@, item@),
        decreases out.len() - pos,
    {
        pos += 1;
    }
    if pos < out.len() {
        let o = path_order(out[pos].as_str(), item.as_str());
        if o == PathOrder::Same {
            return (pos, false);
        }
    }
    let ghost before = out@;
    let ghost iv = item@;
    let ghost after_pos = pos < before.len() ==> path_before(iv, before[pos as int]@);
    assert(after_pos);
    out.insert(pos, item);
    proof {
        assert(out@[pos as int]@ == iv);
        assert forall|i: int, j: int| 0 <= i < j < out@.len() implies path_before(
            out@[i]@,
            out@[j]@,
        ) by {
            if j < pos {
                assert(out@[i] == before[i] && out@[j] == before[j]);
            } else if j == pos {
                assert(out@[i] == before[i]);
            } else {
                assert(out@[j] == before[j - 1]);
                assert(path_before(iv, before[j - 1]@)) by {
                    if j - 1 > pos {
                        lemma_path_order(iv, before[pos as int]@, before[j - 1]@);
                    }
                }
                if i < pos {
                    assert(out@[i] == before[i]);
                    lemma_path_order(before[i]@, iv, before[j - 1]@);
                } else if i > pos {
                    assert(out@[i] == before[i - 1]);
                }
            }
        }
        lemma_path_order(iv, iv, iv);
    }
    (pos, true)
}

/// `cands` in increasing path order, each path once: of several spellings of one path, the
/// first one met is kept.
pub fn sorted_unique_paths(cands: &Vec<String>) -> (r: Vec<String>)
    ensures
        strictly_sorted_paths(r@),
        forall|k: int| 0 <= k < r@.len() ==> path_texts(cands@).contains(#[trigger] r@[k]@),
        forall|m: int| 0 <= m < cands@.len() ==> holds_same_path(r@, #[trigger] cands@[m]@),
{
    let mut out: Vec<String> = Vec::new();
    let ghost mut src: Seq<int> = seq![];
    let ghost mut cover: Seq<int> = seq![];
    let mut i: usize = 0;
    while i < cands.len()
        invariant
            i <= cands.len(),
            strictly_sorted_paths(out@),
            src.len() == out@.len(),
            forall|k: int|
                0 <= k < out@.len() ==> 0 <= #[trigger] src[k] < i && cands@[src[k]]@ == out@[k]@,
            cover.len() == i,
            forall|m: int|
                0 <= m < i ==> 0 <= #[trigger] cover[m] < out@.len() && same_path(
                    out@[cover[m]]@,
                    cands@[m]@,
                ),
        decreases cands.len() - i,
    {
        let ghost before = out@;
        let item = cands[i].clone();
        let (pos, inserted) = insert_path_sorted(&mut out, item);
        proof {
            let old_src = src;
            let old_cover = cover;
            if inserted {
                src = old_src.insert(pos as int, i as int);
                cover = Seq::new(
                    i as nat,
                    |m: int|
                        if old_cover[m] >= pos {
                            old_cover[m] + 1
                        } else {
                            old_cover[m]
                        },
                ).push(pos as int);
                assert forall|k: int| 0 <= k < out@.len() implies 0 <= #[trigger] src[k] < i + 1
                    && cands@[src[k]]@ == out@[k]@ by {
                    if k < pos {
                        assert(out@[k] == before[k]);
                        assert(src[k] == old_src[k]);
                    } else if k > pos {
                        assert(out@[k] == before[k - 1]);
                        assert(src[k] == old_src[k - 1]);
                    }
                }
                assert forall|m: int| 0 <= m < i + 1 implies 0 <= #[trigger] cover[m] < out@.len()
                    && same_path(out@[cover[m]]@, cands@[m]@) by {
                    if m < i {
                        let c = old_cover[m];
                        if c >= pos {
                            assert(out@[c + 1] == before[c]);
                        } else {
                            assert(out@[c] == before[c]);
                        }
                    }
                }
            } else {
                cover = old_cover.push(pos as int);
                assert forall|m: int| 0 <= m < i + 1 implies 0 <= #[trigger] cover[m] < out@.len()
                    && same_path(out@[cover[m]]@, cands@[m]@) by {
                    if m < i {
                    }
                }
            }
        }
        i += 1;
    }
    proof {
        assert forall|k: int| 0 <= k < out@.len() implies path_texts(cands@).contains(
            #[trigger] out@[k]@,
        ) by {
            assert(path_texts(cands@)[src[k]] == out@[k]@);
        }
        assert forall|m: int| 0 <= m < cands@.len() implies holds_same_path(
            out@,
            #[trigger] cands@[m]@,
        ) by {
            assert(same_path(out@[cover[m]]@, cands@[m]@));
        }
    }
    out
}

/// The parents of `paths` that have one, in order.
pub open spec fn parent_list(paths: Seq<String>) -> Seq<Seq<char>>
    decreases paths.len(),
{
    if paths.len() == 0 {
        seq![]
    } else {
        match parent_path(paths.last()@) {
            Some(p) => parent_list(paths.drop_last()).push(p),
            None => parent_list(paths.drop_last()),
        }
    }
}

/// The folders that hold the images: the parents of `image_paths`, in increasing path order,
/// each folder once (of several spellings of one folder, the first one met is kept).
pub fn get_parent_folders(image_paths: &Vec<String>) -> (r: Vec<String>)
    ensures
        strictly_sorted_paths(r@),
        forall|k: int| 0 <= k < r@.len() ==> parent_list(image_paths@).contains(#[trigger] r@[k]@),
        forall|m: int|
            0 <= m < parent_list(image_paths@).len() ==> holds_same_path(
                r@,
                #[trigger] parent_list(image_paths@)[m],
            ),
{
    let mut parents: Vec<String> = Vec::new();
    let mut i: usize = 0;
    while i < image_paths.len()
        invariant
            i <= image_paths.len(),
            path_texts(parents@) == parent_list(image_paths@.take(i as int)),
        decreases image_paths.len() - i,
    {
        assert(image_paths@.take(i + 1).drop_last() =~= image_paths@.take(i as int));
        assert(image_paths@.take(i + 1).last() == image_paths@[i as int]);
        let ghost prev = path_texts(parents@);
        match parent_of(image_paths[i].as_str()) {
            Some(parent) => {
                parents.push(parent);
                assert(path_texts(parents@) =~= prev.push(parents@.last()@));
            },
            None => {},
        }
        i += 1;
    }
    assert(image_paths@.take(image_paths.len() as int) =~= image_paths@);
    let r = sorted_unique_paths(&parents);
    proof {
        let pl = parent_list(image_paths@);
        assert forall|k: int| 0 <= k < r@.len() implies pl.contains(#[trigger] r@[k]@) by {
            assert(path_texts(parents@).contains(r@[k]@));
        }
        assert forall|m: int| 0 <= m < pl.len() implies holds_same_path(r@, #[trigger] pl[m]) by {
            assert(pl[m] == parents@[m]@);
            assert(holds_same_path(r@, parents@[m]@));
        }
    }
    r
}

} // verus!
