//! Character-level string helpers shared by the pages.

use vstd::prelude::*;

verus! {

/// `needle` occurs in `hay` starting at index `i`.
pub open spec fn occurs_at<A>(hay: Seq<A>, needle: Seq<A>, i: int) -> bool {
    0 <= i && i + needle.len() <= hay.len() && hay.subrange(i, i + needle.len()) == needle
}

/// `needle` occurs somewhere in `hay` (the empty sequence occurs in every sequence).
pub open spec fn contains_seq<A>(hay: Seq<A>, needle: Seq<A>) -> bool {
    exists|i: int| occurs_at(hay, needle, i)
}

/// The largest index at or below `i` where `needle` occurs in `hay`, if any.
pub open spec fn last_occurrence_from<A>(hay: Seq<A>, needle: Seq<A>, i: int) -> Option<int>
    decreases i + 1,
{
    if i < 0 {
        None
    } else if occurs_at(hay, needle, i) {
        Some(i)
    } else {
        last_occurrence_from(hay, needle, i - 1)
    }
}

/// The largest index where `needle` occurs in `hay`, if any.
pub open spec fn last_occurrence<A>(hay: Seq<A>, needle: Seq<A>) -> Option<int> {
    last_occurrence_from(hay, needle, hay.len() - needle.len())
}

/// The characters that Unicode gives the `White_Space` property
/// (what `char::is_whitespace` and the regex class `\s` accept).
pub open spec fn is_white_space(c: char) -> bool {
    let v = c as u32;
    ||| 0x9 <= v <= 0xD
    ||| v == 0x20
    ||| v == 0x85
    ||| v == 0xA0
    ||| v == 0x1680
    ||| 0x2000 <= v <= 0x200A
    ||| v == 0x2028
    ||| v == 0x2029
    ||| v == 0x202F
    ||| v == 0x205F
    ||| v == 0x3000
}

/// Whether `c` is a white-space character.
pub fn is_whitespace(c: char) -> (b: bool)
    ensures
        b == is_white_space(c),
{
    let v = c as u32;
    (0x9 <= v && v <= 0xD) || v == 0x20 || v == 0x85 || v == 0xA0 || v == 0x1680 || (0x2000 <= v
        && v <= 0x200A) || v == 0x2028 || v == 0x2029 || v == 0x202F || v == 0x205F || v == 0x3000
}

/// The characters of `s`, in order.
pub fn chars_of(s: &str) -> (res: Vec<char>)
    ensures
        res@ == s@,
{
    let mut res: Vec<char> = Vec::new();
    for c in it: s.chars()
        invariant
            res@ == it.seq().take(it.index() as int),
            it.seq() == s@,
    {
        res.push(c);
    }
    res
}

/// Appends one character to `s` (`String::push`).
#[verifier::external_body]
pub(crate) fn push_char(s: &mut String, c: char)
    ensures
        final(s)@ == old(s)@.push(c),
{
    s.push(c);
}

/// The string made of the characters of `v`.
pub fn string_from_chars(v: &[char]) -> (res: String)
    ensures
        res@ == v@,
{
    let mut res = String::new();
    let mut i: usize = 0;
    while i < v.len()
        invariant
            i <= v.len(),
            res@ == v@.take(i as int),
        decreases v.len() - i,
    {
        push_char(&mut res, v[i]);
        assert(v@.take(i as int).push(v@[i as int]) =~= v@.take(i + 1));
        i += 1;
    }
    assert(v@.take(v.len() as int) =~= v@);
    res
}

/// The string made of the characters of `v` from `start` (inclusive) to `end` (exclusive).
pub fn string_from_range(v: &[char], start: usize, end: usize) -> (res: String)
    requires
        start <= end <= v.len(),
    ensures
        res@ == v@.subrange(start as int, end as int),
{
    let mut res = String::new();
    let mut i: usize = start;
    while i < end
        invariant
            start <= i <= end <= v.len(),
            res@ == v@.subrange(start as int, i as int),
        decreases end - i,
    {
        push_char(&mut res, v[i]);
        assert(v@.subrange(start as int, i as int).push(v@[i as int]) =~= v@.subrange(
            start as int,
            i + 1,
        ));
        i += 1;
    }
    res
}

/// What `str::to_lowercase` gives for a string with the characters `s`
/// (full Unicode lower-casing, a function of the characters alone).
pub uninterp spec fn lowercase(s: Seq<char>) -> Seq<char>;

/// Lower-cases `s` with `str::to_lowercase`; the result is named `lowercase(s@)`. The
/// lower case of the empty text is empty.
#[verifier::external_body]
pub(crate) fn to_lowercase(s: &str) -> (res: String)
    ensures
        res@ == lowercase(s@),
        s@.len() == 0 ==> res@.len() == 0,
{
    s.to_lowercase()
}

/// The upper case of `s` under `str::to_uppercase`: a name for its result, which the Unicode
/// case tables decide.
pub uninterp spec fn uppercase(s: Seq<char>) -> Seq<char>;

/// Upper-cases `s` with `str::to_uppercase`; the result is named `uppercase(s@)`.
#[verifier::external_body]
pub(crate) fn to_uppercase(s: &str) -> (res: String)
    ensures
        res@ == uppercase(s@),
{
    s.to_uppercase()
}

/// Whether `needle` occurs in `hay` starting at `i`.
pub fn occurs_at_exec(hay: &[char], needle: &[char], i: usize) -> (b: bool)
    ensures
        b == occurs_at(hay@, needle@, i as int),
{
    if i > hay.len() || needle.len() > hay.len() - i {
        return false;
    }
    let mut k: usize = 0;
    while k < needle.len()
        invariant
            i + needle.len() <= hay.len(),
            k <= needle.len(),
            forall|j: int| 0 <= j < k ==> hay@[i + j] == needle@[j],
        decreases needle.len() - k,
    {
        if hay[i + k] != needle[k] {
            assert(hay@.subrange(i as int, i + needle.len())[k as int] != needle@[k as int]);
            return false;
        }
        k += 1;
    }
    assert(hay@.subrange(i as int, i + needle.len()) =~= needle@);
    true
}

/// Whether `needle` occurs anywhere in `hay` (`str::contains` on characters).
pub fn contains_chars(hay: &[char], needle: &[char]) -> (b: bool)
    ensures
        b == contains_seq(hay@, needle@),
{
    if needle.len() > hay.len() {
        assert forall|i: int| !occurs_at(hay@, needle@, i) by {}
        return false;
    }
    let last = hay.len() - needle.len();
    let mut i: usize = 0;
    loop
        invariant
            needle.len() <= hay.len(),
            last == hay.len() - needle.len(),
            i <= last,
            forall|j: int| 0 <= j < i ==> !occurs_at(hay@, needle@, j),
        ensures
            forall|j: int| 0 <= j <= last ==> !occurs_at(hay@, needle@, j),
        decreases last - i,
    {
        if occurs_at_exec(hay, needle, i) {
            return true;
        }
        if i == last {
            break ;
        }
        i += 1;
    }
    assert forall|j: int| !occurs_at(hay@, needle@, j) by {
        if 0 <= j <= last {
        }
    }
    false
}

/// Whether the lower-cased `needle` occurs in the lower-cased `hay`,
/// the case-insensitive filter used by the page lists.
pub fn contains_ignoring_case(hay: &str, needle: &str) -> (b: bool)
    ensures
        b == contains_seq(lowercase(hay@), lowercase(needle@)),
        needle@.len() == 0 ==> b,
{
    let h = to_lowercase(hay);
    let n = to_lowercase(needle);
    let hc = chars_of(h.as_str());
    let nc = chars_of(n.as_str());
    proof {
        if needle@.len() == 0 {
            assert(hc@.subrange(0, 0) =~= nc@);
            assert(occurs_at(hc@, nc@, 0));
        }
    }
    contains_chars(&hc, &nc)
}

/// The largest index at or below `from` where `needle` occurs, searching downwards.
fn last_occurrence_exec(hay: &[char], needle: &[char]) -> (res: Option<usize>)
    ensures
        match res {
            Some(i) => last_occurrence(hay@, needle@) == Some(i as int),
            None => last_occurrence(hay@, needle@) is None,
        },
        res matches Some(i) ==> occurs_at(hay@, needle@, i as int),
{
    if needle.len() > hay.len() {
        assert(last_occurrence_from(hay@, needle@, hay@.len() - needle@.len()) is None);
        return None;
    }
    let mut i: usize = hay.len() - needle.len();
    loop
        invariant
            needle.len() <= hay.len(),
            i <= hay.len() - needle.len(),
            last_occurrence(hay@, needle@) == last_occurrence_from(hay@, needle@, i as int),
        decreases i,
    {
        if occurs_at_exec(hay, needle, i) {
            return Some(i);
        }
        if i == 0 {
            assert(last_occurrence_from(hay@, needle@, -1) is None);
            return None;
        }
        i -= 1;
    }
}

/// The separator between a URL's scheme and the rest.
pub open spec fn scheme_separator() -> Seq<char> {
    seq![':', '/', '/']
}

/// Removes everything up to and including the last `"://"` of `s`.
pub fn strip_url_scheme(s: &str) -> (res: String)
    ensures
        res@ == (match last_occurrence(s@, scheme_separator()) {
            Some(i) => s@.skip(i + 3),
            None => s@,
        }),
{
    let sc = chars_of(s);
    let sep: Vec<char> = vec![':', '/', '/'];
    assert(sep@ =~= scheme_separator());
    match last_occurrence_exec(&sc, &sep) {
        Some(i) => {
            assert(occurs_at(sc@, sep@, i as int));
            assert(sep@.len() == 3);
            assert(i + 3 <= sc.len());
            string_from_range(&sc, i + 3, sc.len())
        },
        None => string_from_chars(&sc),
    }
}

/// The decimal digit character for `d` (`d < 10`).
pub open spec fn digit_char(d: nat) -> char {
    (d + 48) as char
}

/// The decimal representation of `n`, as `n.to_string()` writes it.
pub open spec fn decimal_digits(n: nat) -> Seq<char>
    decreases n,
{
    if n < 10 {
        seq![digit_char(n)]
    } else {
        decimal_digits(n / 10).push(digit_char(n % 10))
    }
}

/// Appends the decimal digits of `n` to `out`.
fn push_decimal_digits(n: u32, out: &mut Vec<char>)
    ensures
        final(out)@ == old(out)@ + decimal_digits(n as nat),
    decreases n,
{
    if n >= 10 {
        push_decimal_digits(n / 10, out);
    }
    let c = char_of_digit(n % 10);
    out.push(c);
    assert(decimal_digits(n as nat) == (if (n as nat) < 10 {
        seq![digit_char(n as nat)]
    } else {
        decimal_digits((n as nat) / 10).push(digit_char((n as nat) % 10))
    }));
}

/// The decimal digits of `n`, as `n.to_string().chars()` gives them.
pub fn u32_decimal_digits(n: u32) -> (res: Vec<char>)
    ensures
        res@ == decimal_digits(n as nat),
{
    let mut res: Vec<char> = Vec::new();
    push_decimal_digits(n, &mut res);
    assert(res@ =~= decimal_digits(n as nat));
    res
}

fn char_of_digit(d: u32) -> (c: char)
    requires
        d < 10,
    ensures
        c == digit_char(d as nat),
{
    if d == 0 { '0' }
    else if d == 1 { '1' }
    else if d == 2 { '2' }
    else if d == 3 { '3' }
    else if d == 4 { '4' }
    else if d == 5 { '5' }
    else if d == 6 { '6' }
    else if d == 7 { '7' }
    else if d == 8 { '8' }
    else { '9' }
}


/// Whether the two strings hold the same characters.
pub fn str_eq(a: &str, b: &str) -> (r: bool)
    ensures
        r == (a@ == b@),
{
    let ac = chars_of(a);
    let bc = chars_of(b);
    if ac.len() != bc.len() {
        return false;
    }
    let mut i: usize = 0;
    while i < ac.len()
        invariant
            ac@ == a@,
            bc@ == b@,
            ac.len() == bc.len(),
            i <= ac.len(),
            forall|j: int| 0 <= j < i ==> ac@[j] == bc@[j],
        decreases ac.len() - i,
    {
        if ac[i] != bc[i] {
            return false;
        }
        i += 1;
    }
    assert(ac@ =~= bc@);
    true
}


/// Ten to the power `k`.
pub open spec fn pow10(k: nat) -> nat
    decreases k,
{
    if k == 0 {
        1
    } else {
        10 * pow10((k - 1) as nat)
    }
}

proof fn lemma_decimal_digits_len_below(n: nat, k: nat)
    requires
        k >= 1,
        n < pow10(k),
    ensures
        decimal_digits(n).len() <= k,
    decreases k,
{
    if n >= 10 {
        if k == 1 {
            assert(pow10(1) == 10) by {
                reveal_with_fuel(pow10, 2);
            }
        }
        let p = pow10((k - 1) as nat);
        assert(n / 10 < p) by (nonlinear_arith)
            requires
                n < 10 * p,
        ;
        lemma_decimal_digits_len_below(n / 10, (k - 1) as nat);
    }
}

/// A `u32` has at most ten decimal digits.
pub proof fn lemma_u32_decimal_digits_len(n: nat)
    requires
        n <= u32::MAX,
    ensures
        decimal_digits(n).len() <= 10,
{
    assert(pow10(10) == 10000000000) by {
        reveal_with_fuel(pow10, 11);
    }
    lemma_decimal_digits_len_below(n, 10);
}

/// Appends all of `s` to `out`.
pub(crate) fn push_all(out: &mut String, s: &[char])
    ensures
        final(out)@ == old(out)@ + s@,
{
    let mut i: usize = 0;
    while i < s.len()
        invariant
            i <= s.len(),
            out@ == old(out)@ + s@.take(i as int),
        decreases s.len() - i,
    {
        push_char(out, s[i]);
        assert(s@.take(i as int).push(s@[i as int]) =~= s@.take(i + 1));
        assert(old(out)@ + s@.take(i as int).push(s@[i as int]) =~= (old(out)@ + s@.take(
            i as int,
        )).push(s@[i as int]));
        i += 1;
    }
    assert(s@.take(s.len() as int) =~= s@);
}

/// Appends the characters of `s` to `out`.
pub(crate) fn push_str(out: &mut String, s: &str)
    ensures
        final(out)@ == old(out)@ + s@,
{
    let c = chars_of(s);
    push_all(out, &c);
}

/// `s` split at every `c`, as `str::split` does: there is always at least one piece.
pub open spec fn split_at_char(s: Seq<char>, c: char) -> Seq<Seq<char>>
    decreases s.len(),
{
    if s.len() == 0 {
        seq![seq![]]
    } else {
        let r = split_at_char(s.drop_last(), c);
        if s.last() == c {
            r.push(seq![])
        } else {
            r.update(r.len() - 1, r.last().push(s.last()))
        }
    }
}

pub proof fn lemma_split_at_char_nonempty(s: Seq<char>, c: char)
    ensures
        split_at_char(s, c).len() >= 1,
    decreases s.len(),
{
    if s.len() > 0 {
        lemma_split_at_char_nonempty(s.drop_last(), c);
    }
}

} // verus!
