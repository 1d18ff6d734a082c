//! File paths held as text, joined and taken apart the way `std::path` does on Unix.

use vstd::prelude::*;

use crate::text::{chars_of, push_all, push_char};

verus! {

/// `base` with `name` appended as `PathBuf::push` does: an absolute `name` replaces `base`,
/// and a `/` is put between them unless `base` is empty or already ends with one.
pub open spec fn path_joined(base: Seq<char>, name: Seq<char>) -> Seq<char> {
    if name.len() > 0 && name[0] == '/' {
        name
    } else if base.len() == 0 || base[base.len() - 1] == '/' {
        base + name
    } else {
        base + seq!['/'] + name
    }
}

/// Joins `name` onto `base` as `Path::join` does.
pub fn join_path(base: &str, name: &str) -> (r: String)
    ensures
        r@ == path_joined(base@, name@),
{
    let b = chars_of(base);
    let n = chars_of(name);
    let mut out = String::new();
    if n.len() > 0 && n[0] == '/' {
        push_all(&mut out, &n);
        assert(out@ =~= n@);
        return out;
    }
    push_all(&mut out, &b);
    if !(b.len() == 0 || b[b.len() - 1] == '/') {
        push_char(&mut out, '/');
    }
    push_all(&mut out, &n);
    assert(out@ =~= path_joined(base@, name@));
    out
}

/// The last index `i` with `lo <= i < hi` and `p[i] == c`, if any.
pub open spec fn last_index_in(p: Seq<char>, lo: int, hi: int, c: char) -> Option<int>
    decreases hi - lo,
{
    if hi <= lo {
        None
    } else if p[hi - 1] == c {
        Some(hi - 1)
    } else {
        last_index_in(p, lo, hi - 1, c)
    }
}

/// What `last_index_in` finds lies in the searched range and holds `c`.
pub proof fn lemma_last_index_in_range(p: Seq<char>, lo: int, hi: int, c: char)
    ensures
        last_index_in(p, lo, hi, c) matches Some(k) ==> lo <= k < hi && p[k] == c,
        last_index_in(p, lo, hi, c) is None ==> forall|j: int| lo <= j < hi ==> p[j] != c,
    decreases hi - lo,
{
    if hi > lo && p[hi - 1] != c {
        lemma_last_index_in_range(p, lo, hi - 1, c);
    }
}

/// Where the components after the root (a leading `/`) or after a leading `.` component of
/// a relative path begin.
pub open spec fn body_start(p: Seq<char>) -> int {
    if p.len() > 0 && p[0] == '/' {
        1
    } else if p.len() > 0 && p[0] == '.' && (p.len() == 1 || p[1] == '/') {
        1
    } else {
        0
    }
}

/// Where the last segment of `p[b..e]` begins: after its last `/`, or at `b`.
pub open spec fn segment_start(p: Seq<char>, b: int, e: int) -> int {
    match last_index_in(p, b, e, '/') {
        Some(k) => k + 1,
        None => b,
    }
}

/// `p[b..e]` with trailing separators and `.` components removed, as the end index.
pub open spec fn trimmed_end(p: Seq<char>, b: int, e: int) -> int
    decreases e - b,
{
    if e <= b {
        b
    } else {
        let s = segment_start(p, b, e);
        let seg = p.subrange(s, e);
        if seg.len() == 0 || seg == seq!['.'] {
            match last_index_in(p, b, e, '/') {
                Some(k) => {
                    proof {
                        lemma_last_index_in_range(p, b, e, '/');
                    }
                    trimmed_end(p, b, k)
                },
                None => b,
            }
        } else {
            e
        }
    }
}

/// The final component of `p` when it is a name, as `Path::file_name` gives it.
pub open spec fn file_name(p: Seq<char>) -> Option<Seq<char>> {
    let b = body_start(p);
    let e = trimmed_end(p, b, p.len() as int);
    if e <= b {
        None
    } else {
        let seg = p.subrange(segment_start(p, b, e), e);
        if seg == seq!['.', '.'] {
            None
        } else {
            Some(seg)
        }
    }
}

/// Where the last `.` of a file name splits it into stem and extension, if it does: a name
/// that has no `.` or whose only `.` is its first character is all stem.
pub open spec fn extension_dot(name: Seq<char>) -> Option<int> {
    match last_index_in(name, 0, name.len() as int, '.') {
        Some(d) => if d == 0 {
            None
        } else {
            Some(d)
        },
        None => None,
    }
}

/// The file name of `p` without its extension, as `Path::file_stem` gives it.
pub open spec fn file_stem(p: Seq<char>) -> Option<Seq<char>> {
    match file_name(p) {
        Some(name) => match extension_dot(name) {
            Some(d) => Some(name.take(d)),
            None => Some(name),
        },
        None => None,
    }
}

/// The extension of `p`'s file name, as `Path::extension` gives it.
pub open spec fn file_extension(p: Seq<char>) -> Option<Seq<char>> {
    match file_name(p) {
        Some(name) => match extension_dot(name) {
            Some(d) => Some(name.skip(d + 1)),
            None => None,
        },
        None => None,
    }
}

/// A path with an extension also has a stem.
pub proof fn lemma_extension_has_stem(p: Seq<char>)
    ensures
        file_extension(p) is Some ==> file_stem(p) is Some,
{
}

pub(crate) fn last_index_exec(p: &Vec<char>, lo: usize, hi: usize, c: char) -> (r: Option<usize>)
    requires
        lo <= hi <= p.len(),
    ensures
        match last_index_in(p@, lo as int, hi as int, c) {
            Some(k) => r == Some(k as usize),
            None => r is None,
        },
        r matches Some(k) ==> lo <= k < hi,
        last_index_in(p@, lo as int, hi as int, c) matches Some(k) ==> lo <= k < hi,
{
    proof {
        lemma_last_index_in_range(p@, lo as int, hi as int, c);
    }
    let mut h = hi;
    while h > lo
        invariant
            lo <= h <= hi <= p.len(),
            last_index_in(p@, lo as int, hi as int, c) == last_index_in(p@, lo as int, h as int, c),
        decreases h - lo,
    {
        if p[h - 1] == c {
            return Some(h - 1);
        }
        h -= 1;
    }
    None
}

pub(crate) fn body_start_exec(p: &Vec<char>) -> (b: usize)
    ensures
        b == body_start(p@),
        b <= p.len(),
{
    if p.len() > 0 && p[0] == '/' {
        1
    } else if p.len() > 0 && p[0] == '.' && (p.len() == 1 || p[1] == '/') {
        1
    } else {
        0
    }
}

pub(crate) fn segment_start_exec(p: &Vec<char>, b: usize, e: usize) -> (s: usize)
    requires
        b <= e <= p.len(),
    ensures
        s == segment_start(p@, b as int, e as int),
        b <= s <= e,
{
    match last_index_exec(p, b, e, '/') {
        Some(k) => k + 1,
        None => b,
    }
}

pub(crate) fn trimmed_end_exec(p: &Vec<char>, b: usize, e: usize) -> (r: usize)
    requires
        b <= e <= p.len(),
    ensures
        r == trimmed_end(p@, b as int, e as int),
        b <= r <= e,
{
    let mut end = e;
    loop
        invariant
            b <= end <= e <= p.len(),
            trimmed_end(p@, b as int, e as int) == trimmed_end(p@, b as int, end as int),
        decreases end - b,
    {
        if end <= b {
            return b;
        }
        let s = segment_start_exec(p, b, end);
        let is_junk = s == end || (end - s == 1 && p[s] == '.');
        proof {
            let seg = p@.subrange(s as int, end as int);
            if end - s == 1 {
                assert(seg[0] == p@[s as int]);
                if p@[s as int] == '.' {
                    assert(seg =~= seq!['.']);
                }
            }
            assert(is_junk == (seg.len() == 0 || seg == seq!['.']));
        }
        if !is_junk {
            return end;
        }
        match last_index_exec(p, b, end, '/') {
            Some(k) => {
                end = k;
            },
            None => {
                return b;
            },
        }
    }
}

/// The final name of `path` (`Path::file_name`), if it has one.
pub fn file_name_of(path: &str) -> (r: Option<String>)
    ensures
        match file_name(path@) {
            Some(n) => r matches Some(s) && s@ == n,
            None => r is None,
        },
{
    let p = chars_of(path);
    let b = body_start_exec(&p);
    let e = trimmed_end_exec(&p, b, p.len());
    if e <= b {
        return None;
    }
    let s = segment_start_exec(&p, b, e);
    if e - s == 2 && p[s] == '.' && p[s + 1] == '.' {
        assert(p@.subrange(s as int, e as int) =~= seq!['.', '.']);
        return None;
    }
    proof {
        let seg = p@.subrange(s as int, e as int);
        if seg == seq!['.', '.'] {
            assert(seg[0] == p@[s as int]);
            assert(seg[1] == p@[s + 1]);
        }
    }
    Some(crate::text::string_from_range(&p, s, e))
}

/// The file name stem of `path` (`Path::file_stem`), if it has a file name.
pub fn stem_of(path: &str) -> (r: Option<String>)
    ensures
        match file_stem(path@) {
            Some(n) => r matches Some(s) && s@ == n,
            None => r is None,
        },
{
    match file_name_of(path) {
        Some(name) => {
            let n = chars_of(name.as_str());
            match last_index_exec(&n, 0, n.len(), '.') {
                Some(d) => {
                    if d == 0 {
                        Some(name)
                    } else {
                        let r = crate::text::string_from_range(&n, 0, d);
                        assert(n@.subrange(0, d as int) =~= n@.take(d as int));
                        Some(r)
                    }
                },
                None => Some(name),
            }
        },
        None => None,
    }
}

/// The extension of `path`'s file name (`Path::extension`), if it has one.
pub fn extension_of(path: &str) -> (r: Option<String>)
    ensures
        match file_extension(path@) {
            Some(n) => r matches Some(s) && s@ == n,
            None => r is None,
        },
{
    match file_name_of(path) {
        Some(name) => {
            let n = chars_of(name.as_str());
            match last_index_exec(&n, 0, n.len(), '.') {
                Some(d) => {
                    if d == 0 {
                        None
                    } else {
                        let r = crate::text::string_from_range(&n, d + 1, n.len());
                        assert(n@.subrange(d + 1, n.len() as int) =~= n@.skip(d + 1));
                        Some(r)
                    }
                },
                None => None,
            }
        },
        None => None,
    }
}

} // verus!
