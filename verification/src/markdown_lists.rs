//! Continuing and ending markdown list items when Enter is pressed in the note editor.
//!
//! A line is read the way the notes page's list patterns read it: leading spaces give the
//! indent, then a `*` or `-` bullet or a number followed by `.`, one white-space character,
//! and an optional `[ ] ` / `[x] ` check box. A list item with text after its marker is
//! continued on the next line; an empty one is removed.

use vstd::prelude::*;

use crate::text::{chars_of, decimal_digits, is_white_space, is_whitespace, u32_decimal_digits};

verus! {

/// The first index at or after `i` that is not a space (`' '`), or the end of `l`.
pub open spec fn spaces_end(l: Seq<char>, i: int) -> int
    decreases l.len() - i,
{
    if i < 0 || i >= l.len() || l[i] != ' ' {
        i
    } else {
        spaces_end(l, i + 1)
    }
}

/// The first index at or after `i` that is not white space, or the end of `l`.
pub open spec fn white_space_end(l: Seq<char>, i: int) -> int
    decreases l.len() - i,
{
    if i < 0 || i >= l.len() || !is_white_space(l[i]) {
        i
    } else {
        white_space_end(l, i + 1)
    }
}

/// The first code point of each run of ten decimal digits that Unicode lists
/// (general category `Nd`, what the pattern class `\d` accepts), apart from the
/// mathematical digits, which `is_decimal_digit` adds.
pub open spec fn decimal_digit_block_starts() -> Seq<u32> {
    seq![
        0x30u32, 0x660, 0x6F0, 0x7C0, 0x966, 0x9E6, 0xA66, 0xAE6, 0xB66, 0xBE6, 0xC66, 0xCE6,
        0xD66, 0xDE6, 0xE50, 0xED0, 0xF20, 0x1040, 0x1090, 0x17E0, 0x1810, 0x1946, 0x19D0,
        0x1A80, 0x1A90, 0x1B50, 0x1BB0, 0x1C40, 0x1C50, 0xA620, 0xA8D0, 0xA900, 0xA9D0, 0xA9F0,
        0xAA50, 0xABF0, 0xFF10, 0x104A0, 0x10D30, 0x11066, 0x110F0, 0x11136, 0x111D0, 0x112F0,
        0x11450, 0x114D0, 0x11650, 0x116C0, 0x11730, 0x118E0, 0x11950, 0x11C50, 0x11D50,
        0x11DA0, 0x11F50, 0x16A60, 0x16AC0, 0x16B50, 0x1E140, 0x1E2F0, 0x1E4F0, 0x1E950,
        0x1FBF0,
    ]
}

/// A Unicode decimal digit.
pub open spec fn is_decimal_digit(c: char) -> bool {
    let v = c as u32;
    ||| (0x1D7CE <= v && v <= 0x1D7FF)
    ||| exists|i: int|
        0 <= i < decimal_digit_block_starts().len() && #[trigger] decimal_digit_block_starts()[i]
            <= v < decimal_digit_block_starts()[i] + 10
}

/// The first index at or after `i` that is not a decimal digit, or the end of `l`.
pub open spec fn decimal_digits_end(l: Seq<char>, i: int) -> int
    decreases l.len() - i,
{
    if i < 0 || i >= l.len() || !is_decimal_digit(l[i]) {
        i
    } else {
        decimal_digits_end(l, i + 1)
    }
}

/// A check box, `[ ]` or `[x]` followed by white space, starts at `i`.
pub open spec fn check_box_at(l: Seq<char>, i: int) -> bool {
    &&& 0 <= i
    &&& i + 3 < l.len()
    &&& l[i] == '['
    &&& (l[i + 1] == ' ' || l[i + 1] == 'x')
    &&& l[i + 2] == ']'
    &&& is_white_space(l[i + 3])
}

/// `s` up to its first line break.
pub open spec fn before_line_break(s: Seq<char>) -> Seq<char>
    decreases s.len(),
{
    if s.len() == 0 || s[0] == '\n' {
        seq![]
    } else {
        seq![s[0]] + before_line_break(s.drop_first())
    }
}

/// A bullet item with `marker` after the leading spaces: its indent and whether it has a
/// check box.
pub open spec fn bullet_item(l: Seq<char>, marker: char) -> Option<(nat, bool)> {
    let k = spaces_end(l, 0);
    if k + 1 < l.len() && l[k] == marker && is_white_space(l[k + 1]) {
        Some((k as nat, check_box_at(l, k + 2)))
    } else {
        None
    }
}

/// The text after a bullet `marker` that follows any leading white space.
pub open spec fn bullet_text(l: Seq<char>, marker: char) -> Option<Seq<char>> {
    let w = white_space_end(l, 0);
    if w + 1 < l.len() && l[w] == marker && is_white_space(l[w + 1]) {
        Some(before_line_break(l.skip(w + 2)))
    } else {
        None
    }
}

/// A numbered item after the leading spaces: its indent, its number's digits and whether
/// it has a check box.
pub open spec fn numbered_item(l: Seq<char>) -> Option<(nat, Seq<char>, bool)> {
    let k = spaces_end(l, 0);
    let d = decimal_digits_end(l, k);
    if d > k && d + 1 < l.len() && l[d] == '.' && is_white_space(l[d + 1]) {
        Some((k as nat, l.subrange(k, d), check_box_at(l, d + 2)))
    } else {
        None
    }
}

/// The text after a number and `.` that follow any leading white space.
pub open spec fn numbered_text(l: Seq<char>) -> Option<Seq<char>> {
    let w = white_space_end(l, 0);
    let d = decimal_digits_end(l, w);
    if d > w && d + 1 < l.len() && l[d] == '.' && is_white_space(l[d + 1]) {
        Some(before_line_break(l.skip(d + 2)))
    } else {
        None
    }
}

/// The text after a list marker is real content: present, not empty and not just a check box.
pub open spec fn has_item_text(t: Option<Seq<char>>) -> bool {
    match t {
        Some(s) => s.len() > 0 && s != seq!['[', ' ', ']', ' '] && s != seq!['[', 'x', ']', ' '],
        None => false,
    }
}

/// Every character of `s` is an ASCII digit.
pub open spec fn all_ascii_digits(s: Seq<char>) -> bool {
    forall|i: int| 0 <= i < s.len() ==> '0' <= #[trigger] s[i] <= '9'
}

/// The number that the ASCII digits `s` write in decimal.
pub open spec fn digits_value(s: Seq<char>) -> nat
    decreases s.len(),
{
    if s.len() == 0 {
        0
    } else {
        digits_value(s.drop_last()) * 10 + ((s.last() as u32) - 48) as nat
    }
}

/// What pressing Enter on a list line does.
#[derive(Debug, PartialEq, Eq, Structural, Clone, Copy)]
pub enum ListAction {
    NoAction,
    AddUnorderedListItem { list_char: char, indent_amount: usize, has_check_box: bool },
    DeleteUnorderedListItem { cursor_x_pos: usize, indent_amount: usize, has_check_box: bool },
    AddOrderedListItem { num_to_insert: u32, indent_amount: usize, has_check_box: bool },
    DeleteOrderedListItem {
        current_num: u32,
        cursor_x_pos: usize,
        indent_amount: usize,
        has_check_box: bool,
    },
}

/// The action for a bullet item with `marker` on line `l`.
pub open spec fn bullet_action(l: Seq<char>, marker: char, cursor_x: usize) -> ListAction
    recommends
        bullet_item(l, marker) is Some,
{
    let (k, cb) = bullet_item(l, marker)->0;
    if has_item_text(bullet_text(l, marker)) {
        ListAction::AddUnorderedListItem {
            list_char: marker,
            indent_amount: k as usize,
            has_check_box: cb,
        }
    } else {
        ListAction::DeleteUnorderedListItem {
            cursor_x_pos: cursor_x,
            indent_amount: k as usize,
            has_check_box: cb,
        }
    }
}

/// The action that Enter takes on the cursor's line `line` (absent when the cursor's line
/// does not exist), with the cursor at column `cursor_x`: `*` items first, then `-` items,
/// then numbered items.
pub open spec fn list_action_for(line: Option<Seq<char>>, cursor_x: usize) -> ListAction {
    match line {
        None => ListAction::NoAction,
        Some(l) => if bullet_item(l, '*') is Some {
            bullet_action(l, '*', cursor_x)
        } else if bullet_item(l, '-') is Some {
            bullet_action(l, '-', cursor_x)
        } else if numbered_item(l) is Some {
            let (k, ds, cb) = numbered_item(l)->0;
            let n = digits_value(ds);
            if has_item_text(numbered_text(l)) {
                ListAction::AddOrderedListItem {
                    num_to_insert: (n + 1) as u32,
                    indent_amount: k as usize,
                    has_check_box: cb,
                }
            } else {
                ListAction::DeleteOrderedListItem {
                    current_num: n as u32,
                    cursor_x_pos: cursor_x,
                    indent_amount: k as usize,
                    has_check_box: cb,
                }
            }
        } else {
            ListAction::NoAction
        },
    }
}

/// The line can be read without failing: a numbered item that decides the action is written
/// in ASCII digits, its number fits in a `u32`, and so does the next number when the item is
/// continued.
pub open spec fn list_line_readable(line: Option<Seq<char>>) -> bool {
    match line {
        None => true,
        Some(l) => (bullet_item(l, '*') is None && bullet_item(l, '-') is None && numbered_item(
            l,
        ) is Some) ==> {
            let (_, ds, _) = numbered_item(l)->0;
            &&& all_ascii_digits(ds)
            &&& digits_value(ds) <= u32::MAX
            &&& has_item_text(numbered_text(l)) ==> digits_value(ds) < u32::MAX
        },
    }
}

fn spaces_end_exec(l: &Vec<char>, i: usize) -> (r: usize)
    requires
        i <= l.len(),
    ensures
        r == spaces_end(l@, i as int),
        i <= r <= l.len(),
{
    let mut j = i;
    while j < l.len() && l[j] == ' '
        invariant
            i <= j <= l.len(),
            spaces_end(l@, i as int) == spaces_end(l@, j as int),
        decreases l.len() - j,
    {
        j += 1;
    }
    j
}

fn white_space_end_exec(l: &Vec<char>, i: usize) -> (r: usize)
    requires
        i <= l.len(),
    ensures
        r == white_space_end(l@, i as int),
        i <= r <= l.len(),
{
    let mut j = i;
    while j < l.len() && is_whitespace(l[j])
        invariant
            i <= j <= l.len(),
            white_space_end(l@, i as int) == white_space_end(l@, j as int),
        decreases l.len() - j,
    {
        j += 1;
    }
    j
}

/// Whether `c` is a Unicode decimal digit.
pub fn is_decimal_digit_exec(c: char) -> (b: bool)
    ensures
        b == is_decimal_digit(c),
{
    let v = c as u32;
    if 0x1D7CE <= v && v <= 0x1D7FF {
        return true;
    }
    let starts: [u32; 63] = [
        0x30u32, 0x660, 0x6F0, 0x7C0, 0x966, 0x9E6, 0xA66, 0xAE6, 0xB66, 0xBE6, 0xC66, 0xCE6,
        0xD66, 0xDE6, 0xE50, 0xED0, 0xF20, 0x1040, 0x1090, 0x17E0, 0x1810, 0x1946, 0x19D0,
        0x1A80, 0x1A90, 0x1B50, 0x1BB0, 0x1C40, 0x1C50, 0xA620, 0xA8D0, 0xA900, 0xA9D0, 0xA9F0,
        0xAA50, 0xABF0, 0xFF10, 0x104A0, 0x10D30, 0x11066, 0x110F0, 0x11136, 0x111D0, 0x112F0,
        0x11450, 0x114D0, 0x11650, 0x116C0, 0x11730, 0x118E0, 0x11950, 0x11C50, 0x11D50,
        0x11DA0, 0x11F50, 0x16A60, 0x16AC0, 0x16B50, 0x1E140, 0x1E2F0, 0x1E4F0, 0x1E950,
        0x1FBF0,
    ];
    assert(starts@ =~= decimal_digit_block_starts());
    let mut i: usize = 0;
    while i < 63
        invariant
            i <= 63,
            starts@ == decimal_digit_block_starts(),
            v == c as u32,
            forall|j: int| 0 <= j < i ==> !(#[trigger] starts@[j] <= v < starts@[j] + 10),
        decreases 63 - i,
    {
        if starts[i] <= v && v < starts[i] + 10 {
            return true;
        }
        i += 1;
    }
    false
}

fn decimal_digits_end_exec(l: &Vec<char>, i: usize) -> (r: usize)
    requires
        i <= l.len(),
    ensures
        r == decimal_digits_end(l@, i as int),
        i <= r <= l.len(),
{
    let mut j = i;
    while j < l.len() && is_decimal_digit_exec(l[j])
        invariant
            i <= j <= l.len(),
            decimal_digits_end(l@, i as int) == decimal_digits_end(l@, j as int),
        decreases l.len() - j,
    {
        j += 1;
    }
    j
}

fn check_box_at_exec(l: &Vec<char>, i: usize) -> (b: bool)
    ensures
        b == check_box_at(l@, i as int),
{
    i < l.len() && l.len() - i > 3 && l[i] == '[' && (l[i + 1] == ' ' || l[i + 1] == 'x') && l[i
        + 2] == ']' && is_whitespace(l[i + 3])
}

proof fn lemma_before_line_break_skip(s: Seq<char>, e: int)
    requires
        0 <= e <= s.len(),
        forall|j: int| 0 <= j < e ==> s[j] != '\n',
        e == s.len() || s[e] == '\n',
    ensures
        before_line_break(s) == s.take(e),
    decreases s.len(),
{
    if s.len() == 0 || s[0] == '\n' {
        assert(e == 0);
        assert(s.take(e) =~= seq![]);
    } else {
        lemma_before_line_break_skip(s.drop_first(), e - 1);
        assert(seq![s[0]] + s.drop_first().take(e - 1) =~= s.take(e));
    }
}

/// Whether the text after a list marker, from `start` to the end of the line, is real content.
fn has_item_text_from(l: &Vec<char>, start: usize) -> (b: bool)
    requires
        start <= l.len(),
    ensures
        b == has_item_text(Some(before_line_break(l@.skip(start as int)))),
{
    let mut e = start;
    while e < l.len() && l[e] != '\n'
        invariant
            start <= e <= l.len(),
            forall|j: int| start <= j < e ==> l@[j] != '\n',
        decreases l.len() - e,
    {
        e += 1;
    }
    proof {
        lemma_before_line_break_skip(l@.skip(start as int), e - start);
    }
    let ghost t = l@.skip(start as int).take(e - start);
    let n = e - start;
    assert(t.len() == n);
    if n == 0 {
        return false;
    }
    if n == 4 && l[start] == '[' && (l[start + 1] == ' ' || l[start + 1] == 'x') && l[start + 2]
        == ']' && l[start + 3] == ' ' {
        assert(t[0] == l@[start as int]);
        assert(t[1] == l@[start + 1]);
        assert(t =~= seq!['[', ' ', ']', ' '] || t =~= seq!['[', 'x', ']', ' ']);
        return false;
    }
    proof {
        if n == 4 {
            assert(t[0] == l@[start as int]);
            assert(t[1] == l@[start + 1]);
            assert(t[2] == l@[start + 2]);
            assert(t[3] == l@[start + 3]);
            assert(seq!['[', ' ', ']', ' '][1] == ' ');
            assert(seq!['[', 'x', ']', ' '][1] == 'x');
        }
    }
    true
}

proof fn lemma_digits_value_prefix(s: Seq<char>, i: int)
    requires
        0 <= i <= s.len(),
    ensures
        digits_value(s.take(i)) <= digits_value(s),
    decreases s.len(),
{
    if i < s.len() {
        assert(s.drop_last().take(i) =~= s.take(i));
        lemma_digits_value_prefix(s.drop_last(), i);
    } else {
        assert(s.take(i) =~= s);
    }
}

/// The `u32` that the ASCII digits `l[start..end]` write.
fn parse_number(l: &Vec<char>, start: usize, end: usize) -> (n: u32)
    requires
        start <= end <= l.len(),
        all_ascii_digits(l@.subrange(start as int, end as int)),
        digits_value(l@.subrange(start as int, end as int)) <= u32::MAX,
    ensures
        n == digits_value(l@.subrange(start as int, end as int)),
{
    let ghost ds = l@.subrange(start as int, end as int);
    let mut n: u32 = 0;
    let mut i = start;
    while i < end
        invariant
            start <= i <= end <= l.len(),
            ds == l@.subrange(start as int, end as int),
            all_ascii_digits(ds),
            digits_value(ds) <= u32::MAX,
            n == digits_value(ds.take(i - start)),
        decreases end - i,
    {
        proof {
            lemma_digits_value_prefix(ds, i + 1 - start);
            assert(ds.take(i + 1 - start).drop_last() =~= ds.take(i - start));
            assert(ds[i - start] == l@[i as int]);
        }
        let d = (l[i] as u32) - 48;
        n = n * 10 + d;
        i += 1;
    }
    assert(ds.take(end - start) =~= ds);
    n
}

/// The list action for the cursor's line, `line` (if the cursor's line exists), with the
/// cursor at column `cursor_x`.
pub fn parse_markdown_lists(line: Option<&str>, cursor_x: usize) -> (a: ListAction)
    requires
        list_line_readable(
            match line {
                Some(s) => Some(s@),
                None => None,
            },
        ),
    ensures
        a == list_action_for(
            match line {
                Some(s) => Some(s@),
                None => None,
            },
            cursor_x,
        ),
{
    let s = match line {
        Some(s) => s,
        None => {
            return ListAction::NoAction;
        },
    };
    let l = chars_of(s);
    let k = spaces_end_exec(&l, 0);
    let w = white_space_end_exec(&l, 0);
    if k < l.len() && l.len() - k > 1 && (l[k] == '*' || l[k] == '-') && is_whitespace(l[k + 1]) {
        let marker = l[k];
        let cb = check_box_at_exec(&l, k + 2);
        // The leading spaces are white space and the marker is not, so the white-space run
        // ends at the marker too.
        assert(white_space_end(l@, 0) == k) by {
            lemma_space_run_is_white_space_run(l@, 0);
        }
        let has_text = has_item_text_from(&l, k + 2);
        if has_text {
            return ListAction::AddUnorderedListItem {
                list_char: marker,
                indent_amount: k,
                has_check_box: cb,
            };
        } else {
            return ListAction::DeleteUnorderedListItem {
                cursor_x_pos: cursor_x,
                indent_amount: k,
                has_check_box: cb,
            };
        }
    }
    let d = decimal_digits_end_exec(&l, k);
    if d > k && d < l.len() && l.len() - d > 1 && l[d] == '.' && is_whitespace(l[d + 1]) {
        let cb = check_box_at_exec(&l, d + 2);
        assert(white_space_end(l@, 0) == k) by {
            lemma_space_run_is_white_space_run(l@, 0);
            assert(is_decimal_digit(l@[k as int]));
            lemma_decimal_digit_not_white_space(l@[k as int]);
        }
        let n = parse_number(&l, k, d);
        let has_text = has_item_text_from(&l, d + 2);
        if has_text {
            return ListAction::AddOrderedListItem {
                num_to_insert: n + 1,
                indent_amount: k,
                has_check_box: cb,
            };
        } else {
            return ListAction::DeleteOrderedListItem {
                current_num: n,
                cursor_x_pos: cursor_x,
                indent_amount: k,
                has_check_box: cb,
            };
        }
    }
    ListAction::NoAction
}

/// The number the ASCII digits `l[start..end]` write, when it is at most `u32::MAX`.
fn bounded_number(l: &Vec<char>, start: usize, end: usize) -> (r: Option<u32>)
    requires
        start <= end <= l.len(),
        all_ascii_digits(l@.subrange(start as int, end as int)),
    ensures
        match r {
            Some(n) => n == digits_value(l@.subrange(start as int, end as int)),
            None => digits_value(l@.subrange(start as int, end as int)) > u32::MAX,
        },
{
    let ghost ds = l@.subrange(start as int, end as int);
    let mut n: u64 = 0;
    let mut i = start;
    while i < end
        invariant
            start <= i <= end <= l.len(),
            ds == l@.subrange(start as int, end as int),
            all_ascii_digits(ds),
            n == digits_value(ds.take(i - start)),
            n <= u32::MAX,
        decreases end - i,
    {
        proof {
            assert(ds.take(i + 1 - start).drop_last() =~= ds.take(i - start));
            assert(ds[i - start] == l@[i as int]);
        }
        let d = (l[i] as u64) - 48;
        n = n * 10 + d;
        i += 1;
        if n > 4294967295 {
            proof {
                lemma_digits_value_prefix(ds, i - start);
            }
            return None;
        }
    }
    assert(ds.take(end - start) =~= ds);
    Some(n as u32)
}

/// Whether Enter on the line `line` with the cursor at column `cursor_x` can be completed
/// as a list: the line can be read, and the marker of an emptied item fits in a `usize`.
pub fn enter_can_complete_list(line: Option<&str>, cursor_x: usize) -> (b: bool)
    ensures
        b == (list_line_readable(
            match line {
                Some(s) => Some(s@),
                None => None,
            },
        ) && list_action_fits(
            list_action_for(
                match line {
                    Some(s) => Some(s@),
                    None => None,
                },
                cursor_x,
            ),
        )),
{
    let readable = match line {
        None => true,
        Some(s) => {
            let l = chars_of(s);
            let k = spaces_end_exec(&l, 0);
            let d = decimal_digits_end_exec(&l, k);
            if k < l.len() && l.len() - k > 1 && (l[k] == '*' || l[k] == '-') && is_whitespace(
                l[k + 1],
            ) {
                true
            } else if !(d > k && d < l.len() && l.len() - d > 1 && l[d] == '.' && is_whitespace(
                l[d + 1],
            )) {
                true
            } else {
                let mut ascii = true;
                let mut j = k;
                while j < d
                    invariant
                        k <= j <= d <= l.len(),
                        ascii == forall|m: int| k <= m < j ==> '0' <= #[trigger] l@[m] <= '9',
                    decreases d - j,
                {
                    if !('0' <= l[j] && l[j] <= '9') {
                        ascii = false;
                    }
                    j += 1;
                }
                let ghost ds = l@.subrange(k as int, d as int);
                assert(ascii == all_ascii_digits(ds)) by {
                    if !ascii {
                        let m = choose|m: int| k <= m < d && !('0' <= #[trigger] l@[m] <= '9');
                        assert(ds[m - k] == l@[m]);
                    }
                }
                if !ascii {
                    false
                } else {
                    assert(white_space_end(l@, 0) == k) by {
                        lemma_space_run_is_white_space_run(l@, 0);
                        assert(is_decimal_digit(l@[k as int]));
                        lemma_decimal_digit_not_white_space(l@[k as int]);
                    }
                    match bounded_number(&l, k, d) {
                        None => false,
                        Some(n) => {
                            if has_item_text_from(&l, d + 2) {
                                n < 4294967295
                            } else {
                                true
                            }
                        },
                    }
                }
            }
        },
    };
    if !readable {
        return false;
    }
    match parse_markdown_lists(line, cursor_x) {
        ListAction::DeleteUnorderedListItem { indent_amount, .. } => indent_amount
            <= usize::MAX - 6,
        ListAction::DeleteOrderedListItem { indent_amount, .. } => indent_amount
            <= usize::MAX - 16,
        _ => true,
    }
}

proof fn lemma_space_run_is_white_space_run(l: Seq<char>, i: int)
    requires
        0 <= i <= l.len(),
        spaces_end(l, i) < l.len() ==> !is_white_space(l[spaces_end(l, i)]),
    ensures
        white_space_end(l, i) == spaces_end(l, i),
    decreases l.len() - i,
{
    if i < l.len() && l[i] == ' ' {
        lemma_space_run_is_white_space_run(l, i + 1);
    }
}

proof fn lemma_decimal_digit_not_white_space(c: char)
    requires
        is_decimal_digit(c),
    ensures
        !is_white_space(c),
{
    let v = c as u32;
    if !(0x1D7CE <= v && v <= 0x1D7FF) {
        let i = choose|i: int|
            0 <= i < decimal_digit_block_starts().len() && #[trigger] decimal_digit_block_starts()[i]
                <= v < decimal_digit_block_starts()[i] + 10;
        assert(decimal_digit_block_starts()[i] <= v < decimal_digit_block_starts()[i] + 10);
    }
}

/// One key press that the editor performs on a note's text while completing lists.
#[derive(Debug, PartialEq, Eq, Structural, Clone, Copy)]
pub enum ListEdit {
    Insert(char),
    Enter,
    Backspace,
    Delete,
}

/// `n` copies of `e`.
pub open spec fn repeated(e: ListEdit, n: nat) -> Seq<ListEdit> {
    Seq::new(n, |i: int| e)
}

/// The key press that types `c`.
pub open spec fn key_for(c: char) -> ListEdit {
    ListEdit::Insert(c)
}

/// The edits that type the characters of `s`.
pub open spec fn typed(s: Seq<char>) -> Seq<ListEdit>
    decreases s.len(),
{
    if s.len() == 0 {
        seq![]
    } else {
        typed(s.drop_last()).push(key_for(s.last()))
    }
}

/// The edits that type an empty check box.
pub open spec fn check_box_edits() -> Seq<ListEdit> {
    typed(seq!['[', ' ', ']', ' '])
}

/// How many characters an emptied list item's marker spans.
pub open spec fn marker_width(indent: nat, has_check_box: bool, digits: nat) -> nat {
    indent + (if has_check_box {
        6nat
    } else {
        2nat
    }) + digits
}

/// The edits that remove an emptied list item: `cursor_x` backspaces, then deletes up to the
/// marker's width.
pub open spec fn removal_edits(cursor_x: nat, width: nat) -> Seq<ListEdit> {
    repeated(ListEdit::Backspace, cursor_x) + repeated(
        ListEdit::Delete,
        if width > cursor_x {
            (width - cursor_x) as nat
        } else {
            0
        },
    )
}

/// The edits that Enter makes on a list line, in order.
pub open spec fn list_action_edits(a: ListAction) -> Seq<ListEdit> {
    match a {
        ListAction::NoAction => seq![ListEdit::Enter],
        ListAction::AddUnorderedListItem { list_char, indent_amount, has_check_box } => seq![
            ListEdit::Enter,
        ] + repeated(ListEdit::Insert(' '), indent_amount as nat) + typed(seq![list_char, ' '])
            + if has_check_box {
            check_box_edits()
        } else {
            seq![]
        },
        ListAction::DeleteUnorderedListItem { cursor_x_pos, indent_amount, has_check_box } =>
            removal_edits(cursor_x_pos as nat, marker_width(indent_amount as nat, has_check_box, 0)),
        ListAction::AddOrderedListItem { num_to_insert, indent_amount, has_check_box } => seq![
            ListEdit::Enter,
        ] + repeated(ListEdit::Insert(' '), indent_amount as nat) + typed(
            decimal_digits(num_to_insert as nat),
        ) + typed(seq!['.', ' ']) + if has_check_box {
            check_box_edits()
        } else {
            seq![]
        },
        ListAction::DeleteOrderedListItem {
            current_num,
            cursor_x_pos,
            indent_amount,
            has_check_box,
        } => removal_edits(
            cursor_x_pos as nat,
            marker_width(
                indent_amount as nat,
                has_check_box,
                decimal_digits(current_num as nat).len(),
            ),
        ),
    }
}

/// The marker of an emptied list item fits in a `usize`.
pub open spec fn list_action_fits(a: ListAction) -> bool {
    match a {
        ListAction::DeleteUnorderedListItem { indent_amount, .. } => indent_amount + 6
            <= usize::MAX,
        ListAction::DeleteOrderedListItem { indent_amount, .. } => indent_amount + 16
            <= usize::MAX,
        _ => true,
    }
}

fn push_repeated(out: &mut Vec<ListEdit>, kind: u8, c: char, n: usize)
    requires
        kind < 3,
    ensures
        final(out)@ == old(out)@ + repeated(
            if kind == 0 {
                ListEdit::Insert(c)
            } else if kind == 1 {
                ListEdit::Backspace
            } else {
                ListEdit::Delete
            },
            n as nat,
        ),
{
    let ghost e = if kind == 0 {
        ListEdit::Insert(c)
    } else if kind == 1 {
        ListEdit::Backspace
    } else {
        ListEdit::Delete
    };
    let mut i: usize = 0;
    while i < n
        invariant
            i <= n,
            kind < 3,
            e == (if kind == 0 {
                ListEdit::Insert(c)
            } else if kind == 1 {
                ListEdit::Backspace
            } else {
                ListEdit::Delete
            }),
            out@ == old(out)@ + repeated(e, i as nat),
        decreases n - i,
    {
        if kind == 0 {
            out.push(ListEdit::Insert(c));
        } else if kind == 1 {
            out.push(ListEdit::Backspace);
        } else {
            out.push(ListEdit::Delete);
        }
        assert(repeated(e, i as nat).push(e) =~= repeated(e, (i + 1) as nat));
        assert(old(out)@ + repeated(e, i as nat).push(e) =~= (old(out)@ + repeated(
            e,
            i as nat,
        )).push(e));
        i += 1;
    }
}

fn push_typed(out: &mut Vec<ListEdit>, s: &Vec<char>)
    ensures
        final(out)@ == old(out)@ + typed(s@),
{
    let mut i: usize = 0;
    assert(s@.take(0) =~= Seq::<char>::empty());
    assert(old(out)@ + typed(s@.take(0)) =~= old(out)@);
    while i < s.len()
        invariant
            i <= s.len(),
            out@ == old(out)@ + typed(s@.take(i as int)),
        decreases s.len() - i,
    {
        assert(s@.take(i + 1).drop_last() =~= s@.take(i as int));
        let c = s[i];
        let ghost e = key_for(c);
        assert(typed(s@.take(i + 1)) == typed(s@.take(i as int)).push(e));
        out.push(ListEdit::Insert(c));
        assert(old(out)@ + typed(s@.take(i as int)).push(e) =~= (old(out)@ + typed(
            s@.take(i as int),
        )).push(e));
        i += 1;
    }
    assert(s@.take(s.len() as int) =~= s@);
}

/// The edits that pressing Enter makes for the list action `a`.
pub fn edits_for_list_action(a: ListAction) -> (r: Vec<ListEdit>)
    requires
        list_action_fits(a),
    ensures
        r@ == list_action_edits(a),
{
    let mut out: Vec<ListEdit> = Vec::new();
    let check_box: Vec<char> = vec!['[', ' ', ']', ' '];
    match a {
        ListAction::NoAction => {
            out.push(ListEdit::Enter);
            assert(out@ =~= seq![ListEdit::Enter]);
        },
        ListAction::AddUnorderedListItem { list_char, indent_amount, has_check_box } => {
            out.push(ListEdit::Enter);
            push_repeated(&mut out, 0, ' ', indent_amount);
            let marker: Vec<char> = vec![list_char, ' '];
            push_typed(&mut out, &marker);
            if has_check_box {
                push_typed(&mut out, &check_box);
            }
            assert(out@ =~= list_action_edits(a));
        },
        ListAction::DeleteUnorderedListItem { cursor_x_pos, indent_amount, has_check_box } => {
            let width = if has_check_box {
                indent_amount + 6
            } else {
                indent_amount + 2
            };
            push_repeated(&mut out, 1, ' ', cursor_x_pos);
            let deletes = if width > cursor_x_pos {
                width - cursor_x_pos
            } else {
                0
            };
            push_repeated(&mut out, 2, ' ', deletes);
            assert(out@ =~= list_action_edits(a));
        },
        ListAction::AddOrderedListItem { num_to_insert, indent_amount, has_check_box } => {
            out.push(ListEdit::Enter);
            push_repeated(&mut out, 0, ' ', indent_amount);
            let digits = u32_decimal_digits(num_to_insert);
            push_typed(&mut out, &digits);
            let dot: Vec<char> = vec!['.', ' '];
            push_typed(&mut out, &dot);
            if has_check_box {
                push_typed(&mut out, &check_box);
            }
            assert(out@ =~= list_action_edits(a));
        },
        ListAction::DeleteOrderedListItem {
            current_num,
            cursor_x_pos,
            indent_amount,
            has_check_box,
        } => {
            let digits = u32_decimal_digits(current_num);
            proof {
                crate::text::lemma_u32_decimal_digits_len(current_num as nat);
            }
            let width = if has_check_box {
                indent_amount + 6 + digits.len()
            } else {
                indent_amount + 2 + digits.len()
            };
            push_repeated(&mut out, 1, ' ', cursor_x_pos);
            let deletes = if width > cursor_x_pos {
                width - cursor_x_pos
            } else {
                0
            };
            push_repeated(&mut out, 2, ' ', deletes);
            assert(out@ =~= list_action_edits(a));
        },
    }
    out
}

/// The character that closes `c` when brackets and quotes are completed as they are typed.
pub open spec fn closing_char(c: char) -> Option<char> {
    if c == '(' {
        Some(')')
    } else if c == '[' {
        Some(']')
    } else if c == '{' {
        Some('}')
    } else if c == '"' {
        Some('"')
    } else if c == '`' {
        Some('`')
    } else {
        None
    }
}

/// The character that closes `c`, if typing `c` is completed with a closing character.
pub fn closing_bracket(c: char) -> (r: Option<char>)
    ensures
        r == closing_char(c),
{
    if c == '(' {
        Some(')')
    } else if c == '[' {
        Some(']')
    } else if c == '{' {
        Some('}')
    } else if c == '"' {
        Some('"')
    } else if c == '`' {
        Some('`')
    } else {
        None
    }
}


/// `n` spaces.
pub open spec fn spaces(n: nat) -> Seq<char> {
    Seq::new(n, |_i: int| ' ')
}

/// Past a run of spaces that ends at `n`, before a character other than a space, the spaces
/// end at `n`.
proof fn lemma_spaces_end_at(l: Seq<char>, n: int, i: int)
    requires
        0 <= i <= n < l.len(),
        forall|j: int| 0 <= j < n ==> l[j] == ' ',
        l[n] != ' ',
        !is_white_space(l[n]),
    ensures
        spaces_end(l, i) == n,
        white_space_end(l, i) == n,
    decreases n - i,
{
    if i < n {
        lemma_spaces_end_at(l, n, i + 1);
    }
}

/// A text with no line break is all of itself up to its first line break.
proof fn lemma_no_line_break(t: Seq<char>)
    requires
        forall|j: int| 0 <= j < t.len() ==> t[j] != '\n',
    ensures
        before_line_break(t) == t,
    decreases t.len(),
{
    if t.len() > 0 {
        lemma_no_line_break(t.drop_first());
        assert(seq![t[0]] + t.drop_first() =~= t);
    }
}

/// The line `n` spaces, then `marker` and a space, then `t`: where its marker stands and what
/// follows it.
proof fn lemma_bullet_line(n: nat, marker: char, t: Seq<char>)
    requires
        marker == '-' || marker == '*',
        forall|j: int| 0 <= j < t.len() ==> t[j] != '\n',
    ensures
        ({
            let l = spaces(n) + seq![marker, ' '] + t;
            &&& bullet_item(l, marker) == Some((n, check_box_at(l, n as int + 2)))
            &&& bullet_text(l, marker) == Some(t)
            &&& marker == '-' ==> bullet_item(l, '*') is None
        }),
{
    let l = spaces(n) + seq![marker, ' '] + t;
    assert(l[n as int] == marker);
    assert(l[n as int + 1] == ' ');
    assert forall|j: int| 0 <= j < n implies l[j] == ' ' by {}
    lemma_spaces_end_at(l, n as int, 0);
    assert(l.skip(n as int + 2) =~= t);
    lemma_no_line_break(t);
}

/// Enter on a bullet item that holds nothing but a check box, ticked or not, or nothing at
/// all, removes the item instead of adding a new one; the cursor, the indent and whether
/// there is a check box are kept for the removal.
pub proof fn lemma_enter_on_empty_bullet_item_removes_it(
    n: nat,
    marker: char,
    t: Seq<char>,
    cursor_x: usize,
)
    requires
        marker == '-' || marker == '*',
        t == Seq::<char>::empty() || t == seq!['[', ' ', ']', ' '] || t == seq!['[', 'x', ']', ' '],
    ensures
        list_action_for(Some(spaces(n) + seq![marker, ' '] + t), cursor_x)
            == (ListAction::DeleteUnorderedListItem {
            cursor_x_pos: cursor_x,
            indent_amount: n as usize,
            has_check_box: t.len() > 0,
        }),
{
    let l = spaces(n) + seq![marker, ' '] + t;
    lemma_bullet_line(n, marker, t);
    if t.len() > 0 {
        assert(l[n as int + 2] == '[' && l[n as int + 3] == t[1] && l[n as int + 4] == ']' && l[n as int + 5] == ' ');
        assert(check_box_at(l, n as int + 2));
    } else {
        assert(!check_box_at(l, n as int + 2));
    }
}

/// Enter on a bullet item with text after its marker, other than a bare check box, adds an
/// item with the same marker and indent below it, with a check box when the item has one.
pub proof fn lemma_enter_on_bullet_item_with_text_continues_it(
    n: nat,
    marker: char,
    t: Seq<char>,
    cursor_x: usize,
)
    requires
        marker == '-' || marker == '*',
        t.len() > 0,
        t != seq!['[', ' ', ']', ' '],
        t != seq!['[', 'x', ']', ' '],
        forall|j: int| 0 <= j < t.len() ==> t[j] != '\n',
    ensures
        list_action_for(Some(spaces(n) + seq![marker, ' '] + t), cursor_x)
            == (ListAction::AddUnorderedListItem {
            list_char: marker,
            indent_amount: n as usize,
            has_check_box: t.len() >= 4 && t[0] == '[' && (t[1] == ' ' || t[1] == 'x') && t[2]
                == ']' && is_white_space(t[3]),
        }),
{
    let l = spaces(n) + seq![marker, ' '] + t;
    lemma_bullet_line(n, marker, t);
    if t.len() >= 4 {
        assert(l[n as int + 2] == t[0] && l[n as int + 3] == t[1] && l[n as int + 4] == t[2] && l[n as int + 5] == t[3]);
    }
}


/// A full stop is not a decimal digit.
proof fn lemma_full_stop_not_decimal_digit()
    ensures
        !is_decimal_digit('.'),
{
    let v = '.' as u32;
    if is_decimal_digit('.') {
        let i = choose|i: int|
            0 <= i < decimal_digit_block_starts().len() && #[trigger] decimal_digit_block_starts()[i]
                <= v < decimal_digit_block_starts()[i] + 10;
        assert(decimal_digit_block_starts()[i] <= v < decimal_digit_block_starts()[i] + 10);
    }
}

/// An ASCII digit is a decimal digit.
proof fn lemma_ascii_digit_is_decimal_digit(c: char)
    requires
        '0' <= c <= '9',
    ensures
        is_decimal_digit(c),
{
    assert(decimal_digit_block_starts()[0] == 0x30u32);
}

/// A run of ASCII digits from `i` up to a full stop at `e` ends at `e`.
proof fn lemma_digits_end_at(l: Seq<char>, i: int, e: int)
    requires
        0 <= i <= e < l.len(),
        forall|j: int| i <= j < e ==> '0' <= #[trigger] l[j] <= '9',
        l[e] == '.',
    ensures
        decimal_digits_end(l, i) == e,
    decreases e - i,
{
    if i < e {
        lemma_ascii_digit_is_decimal_digit(l[i]);
        lemma_digits_end_at(l, i + 1, e);
    } else {
        lemma_full_stop_not_decimal_digit();
    }
}

/// Enter on a numbered item (written in ASCII digits) that holds nothing but a check box,
/// ticked or not, or nothing at all, removes the item instead of adding the next number.
pub proof fn lemma_enter_on_empty_numbered_item_removes_it(
    n: nat,
    ds: Seq<char>,
    t: Seq<char>,
    cursor_x: usize,
)
    requires
        ds.len() > 0,
        all_ascii_digits(ds),
        t == Seq::<char>::empty() || t == seq!['[', ' ', ']', ' '] || t == seq!['[', 'x', ']', ' '],
    ensures
        list_action_for(Some(spaces(n) + ds + seq!['.', ' '] + t), cursor_x)
            == (ListAction::DeleteOrderedListItem {
            current_num: digits_value(ds) as u32,
            cursor_x_pos: cursor_x,
            indent_amount: n as usize,
            has_check_box: t.len() > 0,
        }),
{
    let l = spaces(n) + ds + seq!['.', ' '] + t;
    let k = n as int;
    let d = k + ds.len();
    assert forall|j: int| 0 <= j < k implies l[j] == ' ' by {}
    assert(l[k] == ds[0]);
    lemma_spaces_end_at(l, k, 0);
    assert forall|j: int| k <= j < d implies '0' <= #[trigger] l[j] <= '9' by {
        assert(l[j] == ds[j - k]);
    }
    assert(l[d] == '.');
    assert(l[d + 1] == ' ');
    lemma_digits_end_at(l, k, d);
    assert(l.subrange(k, d) =~= ds);
    assert(l.skip(d + 2) =~= t);
    lemma_no_line_break(t);
    if t.len() > 0 {
        assert(l[d + 2] == '[' && l[d + 3] == t[1] && l[d + 4] == ']' && l[d + 5] == ' ');
        assert(check_box_at(l, d + 2));
    } else {
        assert(!check_box_at(l, d + 2));
    }
}

} // verus!
