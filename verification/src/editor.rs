//! Where the note editor's cursor and selection lie in the note's text.

use vstd::prelude::*;
use vstd::utf8::{encode_utf8, is_char_boundary};

use crate::text::{chars_of, occurs_at};

verus! {

/// The characters before line `y` (or before the end, when there are fewer lines), each
/// line counted with its line break.
pub open spec fn chars_before_line(lines: Seq<String>, y: int) -> int
    decreases y,
{
    if y <= 0 || lines.len() == 0 {
        0
    } else if y > lines.len() {
        chars_before_line(lines, lines.len() as int)
    } else {
        chars_before_line(lines, y - 1) + lines[y - 1]@.len() + 1
    }
}

/// The character position of the cursor at line `y`, column `x`.
pub open spec fn editor_offset(lines: Seq<String>, y: int, x: int) -> int {
    x + chars_before_line(lines, y)
}

/// The cursor's character position in the text whose lines are `lines`.
pub fn get_editor_offset(lines: &Vec<String>, cursor_line: usize, cursor_column: usize) -> (r:
    usize)
    requires
        editor_offset(lines@, cursor_line as int, cursor_column as int) <= usize::MAX,
    ensures
        r == editor_offset(lines@, cursor_line as int, cursor_column as int),
{
    let stop = if cursor_line < lines.len() {
        cursor_line
    } else {
        lines.len()
    };
    proof {
        if cursor_line > lines.len() && lines.len() > 0 {
            assert(chars_before_line(lines@, cursor_line as int) == chars_before_line(
                lines@,
                lines.len() as int,
            ));
        }
    }
    let mut acc: usize = cursor_column;
    let mut j: usize = 0;
    while j < stop
        invariant
            stop <= lines.len(),
            stop <= cursor_line,
            j <= stop,
            acc == cursor_column + chars_before_line(lines@, j as int),
            chars_before_line(lines@, stop as int) == chars_before_line(lines@, cursor_line as int),
            cursor_column + chars_before_line(lines@, cursor_line as int) <= usize::MAX,
        decreases stop - j,
    {
        proof {
            lemma_chars_before_line_monotone(lines@, j as int + 1, stop as int);
        }
        let n = chars_of(lines[j].as_str()).len();
        acc = acc + n + 1;
        j += 1;
    }
    acc
}

proof fn lemma_chars_before_line_monotone(lines: Seq<String>, a: int, b: int)
    requires
        0 <= a <= b <= lines.len(),
    ensures
        chars_before_line(lines, a) <= chars_before_line(lines, b),
    decreases b - a,
{
    if a < b {
        lemma_chars_before_line_monotone(lines, a, b - 1);
    }
}

/// The first byte position at or after `from` where `pat` occurs in `bytes` and a character
/// begins: where the text search for the selected text finds it next.
pub open spec fn next_match(bytes: Seq<u8>, pat: Seq<u8>, from: int) -> Option<int>
    decreases bytes.len() + 1 - from,
{
    if from < 0 || from > bytes.len() {
        None
    } else if occurs_at(bytes, pat, from) && is_char_boundary(bytes, from) {
        Some(from)
    } else {
        next_match(bytes, pat, from + 1)
    }
}

/// Going through the matches of `pat` from byte `from` on (each search resuming one byte after
/// the previous match, and stopping where that byte is not a character boundary), the first
/// match whose span, end included, holds the byte `cursor`: its start and length.
pub open spec fn selection_from(bytes: Seq<u8>, pat: Seq<u8>, from: int, cursor: int) -> Option<
    (int, int),
>
    decreases bytes.len() + 1 - from,
{
    if from < 0 || from > bytes.len() {
        None
    } else {
        match next_match(bytes, pat, from) {
            None => None,
            Some(p) => if p <= cursor <= p + pat.len() {
                Some((p, pat.len() as int))
            } else if p + 1 <= bytes.len() && is_char_boundary(bytes, p + 1) {
                proof {
                    lemma_next_match_range(bytes, pat, from);
                }
                selection_from(bytes, pat, p + 1, cursor)
            } else {
                None
            },
        }
    }
}

/// What `next_match` finds is a match at or after `from`, and when it finds none there is none.
pub proof fn lemma_next_match_range(bytes: Seq<u8>, pat: Seq<u8>, from: int)
    ensures
        next_match(bytes, pat, from) matches Some(p) ==> from <= p <= bytes.len() && occurs_at(
            bytes,
            pat,
            p,
        ) && is_char_boundary(bytes, p),
        next_match(bytes, pat, from) is None && 0 <= from ==> forall|q: int|
            from <= q <= bytes.len() ==> !(occurs_at(bytes, pat, q) && is_char_boundary(bytes, q)),
    decreases bytes.len() + 1 - from,
{
    if 0 <= from <= bytes.len() && !(occurs_at(bytes, pat, from) && is_char_boundary(bytes, from)) {
        lemma_next_match_range(bytes, pat, from + 1);
    }
}

/// Where the selection lies in the editor's text: the byte position and byte length of the
/// occurrence of the selected text that the cursor (a character position, read as a byte
/// position) touches, if the editor has a selection.
pub open spec fn selection_location(selected: Option<Seq<char>>, text: Seq<char>, cursor: int) -> Option<
    (int, int),
> {
    match selected {
        None => None,
        Some(sel) => selection_from(encode_utf8(text), encode_utf8(sel), 0, cursor),
    }
}

fn occurs_at_bytes(hay: &[u8], needle: &[u8], i: usize) -> (b: bool)
    ensures
        b == occurs_at(hay@, needle@, i as int),
{
    if i > hay.len() || needle.len() > hay.len() - i {
        return false;
    }
    let mut k: usize = 0;
    while k < needle.len()
        invariant
            i + needle.len() <= hay.len(),
            k <= needle.len(),
            forall|j: int| 0 <= j < k ==> hay@[i + j] == needle@[j],
        decreases needle.len() - k,
    {
        if hay[i + k] != needle[k] {
            assert(hay@.subrange(i as int, i + needle.len())[k as int] != needle@[k as int]);
            return false;
        }
        k += 1;
    }
    assert(hay@.subrange(i as int, i + needle.len()) =~= needle@);
    true
}

fn next_match_exec(text: &str, pat: &[u8], from: usize) -> (r: Option<usize>)
    requires
        from <= encode_utf8(text@).len(),
    ensures
        next_match(encode_utf8(text@), pat@, from as int) == (match r {
            Some(p) => Some(p as int),
            None => None,
        }),
        r matches Some(p) ==> from <= p <= encode_utf8(text@).len(),
{
    proof {
        lemma_next_match_range(encode_utf8(text@), pat@, from as int);
    }
    let bytes = text.as_bytes();
    let mut q = from;
    loop
        invariant
            bytes@ == encode_utf8(text@),
            from <= q <= bytes.len(),
            next_match(bytes@, pat@, from as int) == next_match(bytes@, pat@, q as int),
        decreases bytes.len() - q,
    {
        if occurs_at_bytes(bytes, pat, q) && text.is_char_boundary(q) {
            return Some(q);
        }
        if q == bytes.len() {
            assert(next_match(bytes@, pat@, q + 1) is None);
            return None;
        }
        q += 1;
    }
}

/// The byte position and byte length, in `text`, of the occurrence of `selected` that the
/// cursor at character position `cursor` touches.
fn locate_selection(selected: &str, text: &str, cursor: usize) -> (r: Option<(usize, usize)>)
    ensures
        selection_from(encode_utf8(text@), encode_utf8(selected@), 0, cursor as int) == (match r {
            Some((p, n)) => Some((p as int, n as int)),
            None => None,
        }),
{
    let pat = selected.as_bytes();
    let bytes = text.as_bytes();
    let mut from: usize = 0;
    loop
        invariant
            bytes@ == encode_utf8(text@),
            pat@ == encode_utf8(selected@),
            from <= bytes.len(),
            selection_from(bytes@, pat@, 0, cursor as int) == selection_from(
                bytes@,
                pat@,
                from as int,
                cursor as int,
            ),
        decreases bytes.len() - from,
    {
        let found = next_match_exec(text, pat, from);
        assert(selection_from(bytes@, pat@, from as int, cursor as int) == (match next_match(
            bytes@,
            pat@,
            from as int,
        ) {
            None => None,
            Some(p) => if p <= cursor <= p + pat@.len() {
                Some((p, pat@.len() as int))
            } else if p + 1 <= bytes@.len() && is_char_boundary(bytes@, p + 1) {
                selection_from(bytes@, pat@, p + 1, cursor as int)
            } else {
                None
            },
        }));
        match found {
            None => {
                return None;
            },
            Some(p) => {
                if p <= cursor && cursor - p <= pat.len() {
                    return Some((p, pat.len()));
                }
                if p < bytes.len() && text.is_char_boundary(p + 1) {
                    from = p + 1;
                } else {
                    return None;
                }
            },
        }
    }
}

/// The byte position and byte length, in `text`, of the selection `selected` that the
/// cursor at character position `cursor` touches, if there is a selection.
pub fn get_selection_location(selected: Option<&str>, text: &str, cursor: usize) -> (r: Option<
    (usize, usize),
>)
    ensures
        selection_location(
            match selected {
                Some(s) => Some(s@),
                None => None,
            },
            text@,
            cursor as int,
        ) == (match r {
            Some((p, n)) => Some((p as int, n as int)),
            None => None,
        }),
{
    match selected {
        Some(s) => locate_selection(s, text, cursor),
        None => None,
    }
}

} // verus!
