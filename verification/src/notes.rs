//! Notes: document statistics, note titles, the notes list, archiving and export to a
//! website.

use vstd::prelude::*;
use vstd::multiset::Multiset;
use vstd::seq_lib::{to_multiset_build, to_multiset_insert};

use crate::paths::{file_extension, file_stem, join_path, path_joined, stem_of};
use crate::text::{
    chars_of, contains_ignoring_case, contains_seq, lowercase, push_str, str_eq, string_from_range,
    to_lowercase, to_uppercase, uppercase,
};

verus! {

/// Character, word and reading-time counts of a note.
pub struct NoteStatistics {
    pub char_count: u64,
    pub word_count: u64,
    pub reading_time_in_mins: u64,
}

/// How many times `c` occurs in `s`.
pub open spec fn count_char(s: Seq<char>, c: char) -> nat
    decreases s.len(),
{
    if s.len() == 0 {
        0
    } else {
        count_char(s.drop_last(), c) + if s.last() == c {
            1nat
        } else {
            0nat
        }
    }
}

/// The statistics of a note's text: its characters, its words as the pieces between single
/// spaces, and one minute of reading per 200 words.
pub fn note_statistics(text: &str) -> (r: NoteStatistics)
    requires
        text@.len() < u64::MAX,
    ensures
        r.char_count == text@.len(),
        r.word_count == count_char(text@, ' ') + 1,
        r.reading_time_in_mins == r.word_count / 200,
{
    let cs = chars_of(text);
    let mut spaces: u64 = 0;
    let mut i: usize = 0;
    while i < cs.len()
        invariant
            cs@ == text@,
            text@.len() < u64::MAX,
            i <= cs.len(),
            spaces == count_char(cs@.take(i as int), ' '),
            spaces <= i,
        decreases cs.len() - i,
    {
        assert(cs@.take(i + 1).drop_last() =~= cs@.take(i as int));
        if cs[i] == ' ' {
            spaces += 1;
        }
        i += 1;
    }
    assert(cs@.take(cs.len() as int) =~= cs@);
    let char_count = cs.len() as u64;
    let word_count = spaces + 1;
    NoteStatistics { char_count, word_count, reading_time_in_mins: word_count / 200 }
}

/// The first `n` characters of `input`, or all of it when it is shorter.
pub fn take_first_n_chars(input: &str, n: usize) -> (r: String)
    ensures
        r@ == input@.take(if n < input@.len() {
            n as int
        } else {
            input@.len() as int
        }),
{
    let cs = chars_of(input);
    let end = if n < cs.len() {
        n
    } else {
        cs.len()
    };
    let r = string_from_range(&cs, 0, end);
    assert(cs@.subrange(0, end as int) =~= cs@.take(end as int));
    r
}

/// Taking the first `n` characters gives a prefix of at most `n` characters, and taking them
/// again changes nothing.
pub proof fn lemma_take_first_n_chars(s: Seq<char>, n: nat)
    ensures
        s.take(if n < s.len() { n as int } else { s.len() as int }).len() <= n,
        s.take(if n < s.len() { n as int } else { s.len() as int }).is_prefix_of(s),
        ({
            let t = s.take(if n < s.len() { n as int } else { s.len() as int });
            t.take(if n < t.len() { n as int } else { t.len() as int }) == t
        }),
{
    let t = s.take(if n < s.len() { n as int } else { s.len() as int });
    assert(t.take(if n < t.len() { n as int } else { t.len() as int }) =~= t);
    assert(t =~= s.subrange(0, t.len() as int));
}

/// How many characters of a note's file name its button shows.
pub const NOTE_TITLE_LENGTH: usize = 30;

/// A note in the notes folder.
pub struct Note {
    pub button_title: String,
    pub file_path: String,
    pub last_edited: u64,
}

/// The title a note's button shows for a file name stem: its first 30 characters.
pub open spec fn note_title(stem: Seq<char>) -> Seq<char> {
    stem.take(if 30 < stem.len() { 30 } else { stem.len() as int })
}

/// The note for the file at `file_path`, last modified at `last_edited`, if it is a markdown
/// (`.md`) file.
pub fn note_for_file(file_path: &str, last_edited: u64) -> (r: Option<Note>)
    ensures
        match r {
            Some(note) => {
                &&& file_extension(file_path@) == Some(seq!['m', 'd'])
                &&& file_stem(file_path@) is Some
                &&& note.button_title@ == note_title(file_stem(file_path@)->0)
                &&& note.file_path@ == file_path@
                &&& note.last_edited == last_edited
            },
            None => file_extension(file_path@) != Some(seq!['m', 'd']),
        },
{
    let ext = crate::paths::extension_of(file_path);
    match ext {
        Some(e) => {
            proof {
                reveal_strlit("md");
                assert("md"@ =~= seq!['m', 'd']);
            }
            if !str_eq(e.as_str(), "md") {
                return None;
            }
        },
        None => {
            return None;
        },
    }
    let stem = crate::paths::stem_of(file_path);
    match stem {
        Some(s) => {
            let title = take_first_n_chars(s.as_str(), NOTE_TITLE_LENGTH);
            Some(Note { button_title: title, file_path: file_path.to_owned(), last_edited })
        },
        None => {
            proof {
                crate::paths::lemma_extension_has_stem(file_path@);
            }
            None
        },
    }
}

/// The edit times of `notes` never increase along the sequence.
pub open spec fn newest_first(notes: Seq<Note>) -> bool {
    forall|i: int, j: int| 0 <= i < j < notes.len() ==> notes[i].last_edited >= notes[j].last_edited
}

/// Orders the notes list with the most recently edited note first.
pub fn sort_notes_newest_first(notes: Vec<Note>) -> (r: Vec<Note>)
    ensures
        r@.to_multiset() == notes@.to_multiset(),
        newest_first(r@),
{
    let mut rest = notes;
    let mut out: Vec<Note> = Vec::new();
    proof {
        broadcast use vstd::seq_lib::group_to_multiset_ensures;
    }
    while rest.len() > 0
        invariant
            out@.to_multiset().add(rest@.to_multiset()) == notes@.to_multiset(),
            newest_first(out@),
        decreases rest.len(),
    {
        let ghost before_rest = rest@;
        let note = rest.pop().unwrap();
        proof {
            assert(before_rest =~= rest@.push(note));
            to_multiset_build(rest@, note);
        }
        let mut pos: usize = 0;
        while pos < out.len() && out[pos].last_edited >= note.last_edited
            invariant
                pos <= out.len(),
                forall|j: int| 0 <= j < pos ==> out@[j].last_edited >= note.last_edited,
            decreases out.len() - pos,
        {
            pos += 1;
        }
        let ghost before_out = out@;
        out.insert(pos, note);
        proof {
            to_multiset_insert(before_out, pos as int, note);
            assert forall|i: int, j: int| 0 <= i < j < out@.len() implies out@[i].last_edited
                >= out@[j].last_edited by {
                if j < pos {
                } else if j == pos {
                } else if i < pos {
                    assert(out@[j] == before_out[j - 1]);
                } else if i == pos {
                    assert(out@[j] == before_out[j - 1]);
                    assert(pos < before_out.len());
                    assert(before_out[pos as int].last_edited < note.last_edited);
                } else {
                    assert(out@[i] == before_out[i - 1]);
                    assert(out@[j] == before_out[j - 1]);
                }
            }
            assert(out@.to_multiset().add(rest@.to_multiset()) =~= notes@.to_multiset());
        }
    }
    proof {
        assert(rest@.to_multiset() =~= Multiset::empty());
        assert(out@.to_multiset().add(Multiset::empty()) =~= out@.to_multiset());
    }
    out
}

/// The indices below `n`, in order, at which `keep` holds.
pub open spec fn kept_indices(keep: spec_fn(int) -> bool, n: int) -> Seq<int>
    decreases n,
{
    if n <= 0 {
        seq![]
    } else if keep(n - 1) {
        kept_indices(keep, n - 1).push(n - 1)
    } else {
        kept_indices(keep, n - 1)
    }
}

/// The note titled `title` is shown under the case-insensitive filter `filter`.
pub open spec fn title_matches(title: Seq<char>, filter: Seq<char>) -> bool {
    contains_seq(lowercase(title), lowercase(filter))
}

/// The positions of the notes whose titles contain `filter`, ignoring case, in list order.
pub fn notes_matching_filter(notes: &Vec<Note>, filter: &str) -> (r: Vec<usize>)
    ensures
        r@.map_values(|i: usize| i as int) == kept_indices(
            |i: int| title_matches(notes@[i].button_title@, filter@),
            notes@.len() as int,
        ),
{
    let ghost keep = |i: int| title_matches(notes@[i].button_title@, filter@);
    let mut r: Vec<usize> = Vec::new();
    let mut i: usize = 0;
    while i < notes.len()
        invariant
            i <= notes.len(),
            keep == (|i: int| title_matches(notes@[i].button_title@, filter@)),
            r@.map_values(|i: usize| i as int) == kept_indices(keep, i as int),
        decreases notes.len() - i,
    {
        let m = contains_ignoring_case(notes[i].button_title.as_str(), filter);
        if m {
            r.push(i);
            assert(r@.map_values(|i: usize| i as int) =~= kept_indices(keep, i as int).push(
                i as int,
            ));
        }
        i += 1;
    }
    r
}

/// The name under which a note or project file is kept in an archive list: its file name
/// stem, lower-cased.
pub open spec fn archive_name(path: Seq<char>) -> Seq<char> {
    lowercase(
        match file_stem(path) {
            Some(s) => s,
            None => seq![],
        },
    )
}

/// The archive-list name of the file at `path`.
pub fn archive_name_of(path: &str) -> (r: String)
    ensures
        r@ == archive_name(path@),
{
    let stem = match crate::paths::stem_of(path) {
        Some(s) => s,
        None => String::new(),
    };
    to_lowercase(stem.as_str())
}

/// Archives the file at `path`: its name is added to the end of `archived`.
pub fn archive_file(archived: &mut Vec<String>, path: &str)
    ensures
        final(archived)@.len() == old(archived)@.len() + 1,
        final(archived)@.take(old(archived)@.len() as int) == old(archived)@,
        final(archived)@.last()@ == archive_name(path@),
{
    let name = archive_name_of(path);
    archived.push(name);
    assert(final(archived)@.take(old(archived)@.len() as int) =~= old(archived)@);
}

/// `l` up to its first `-`: the language of a locale such as `EN-GB`.
pub open spec fn language_of(l: Seq<char>) -> Seq<char>
    decreases l.len(),
{
    if l.len() == 0 {
        l
    } else if l[0] == '-' {
        seq![]
    } else {
        seq![l[0]] + language_of(l.drop_first())
    }
}

/// The folder, under the dictionaries folder `dir`, whose spelling dictionary is used for the
/// locale `locale`, given the names of the folders that `dir` holds: the one named by the
/// upper-cased locale, else the one named by its language, else `EN`.
pub open spec fn dictionary_folder_for(dir: Seq<char>, locale: Seq<char>, present: Seq<String>) -> Seq<
    char,
> {
    let l = uppercase(locale);
    if first_position(present, l) is Some {
        path_joined(dir, l)
    } else if first_position(present, language_of(l)) is Some {
        path_joined(dir, language_of(l))
    } else {
        path_joined(dir, "EN"@)
    }
}

/// The text up to the first `-`.
fn language_part(l: &str) -> (r: String)
    ensures
        r@ == language_of(l@),
{
    let cs = chars_of(l);
    let mut n: usize = 0;
    assert(cs@.skip(0) =~= cs@);
    assert(cs@.take(0) + language_of(cs@) =~= language_of(cs@));
    while n < cs.len() && cs[n] != '-'
        invariant
            n <= cs.len(),
            language_of(cs@) == cs@.take(n as int) + language_of(cs@.skip(n as int)),
        decreases cs.len() - n,
    {
        assert(cs@.skip(n as int).drop_first() =~= cs@.skip(n + 1));
        assert(cs@.take(n + 1) =~= cs@.take(n as int) + seq![cs@[n as int]]);
        n += 1;
    }
    proof {
        if n < cs.len() {
            assert(cs@.skip(n as int)[0] == '-');
        }
        assert(language_of(cs@.skip(n as int)) =~= seq![]);
        assert(cs@.take(n as int) =~= cs@.subrange(0, n as int));
    }
    string_from_range(&cs, 0, n)
}

/// Where the spelling dictionary for `locale` is read from, under the dictionaries folder
/// `dir` holding the folders named `present`: the folder of the upper-cased locale, else that
/// of its language, else `EN`.
pub fn dictionary_folder(dir: &str, locale: &str, present: &Vec<String>) -> (r: String)
    ensures
        r@ == dictionary_folder_for(dir@, locale@, present@),
{
    let l = to_uppercase(locale);
    if position_of(present, l.as_str()).is_some() {
        return join_path(dir, l.as_str());
    }
    let lang = language_part(l.as_str());
    if position_of(present, lang.as_str()).is_some() {
        return join_path(dir, lang.as_str());
    }
    join_path(dir, "EN")
}

/// The position of the first entry of `list` whose text is `s`, if any.
pub open spec fn first_position(list: Seq<String>, s: Seq<char>) -> Option<int>
    decreases list.len(),
{
    if list.len() == 0 {
        None
    } else {
        match first_position(list.drop_last(), s) {
            Some(i) => Some(i),
            None => if list.last()@ == s {
                Some(list.len() - 1)
            } else {
                None
            },
        }
    }
}

/// Finds the first entry of `list` equal to `s`.
pub fn position_of(list: &Vec<String>, s: &str) -> (r: Option<usize>)
    ensures
        first_position(list@, s@) == (match r {
            Some(i) => Some(i as int),
            None => None,
        }),
        r matches Some(i) ==> i < list@.len() && list@[i as int]@ == s@,
{
    proof {
        lemma_first_position_range(list@, s@);
    }
    let mut i: usize = 0;
    while i < list.len()
        invariant
            i <= list.len(),
            first_position(list@.take(i as int), s@) is None,
        decreases list.len() - i,
    {
        assert(list@.take(i + 1).drop_last() =~= list@.take(i as int));
        if str_eq(list[i].as_str(), s) {
            proof {
                lemma_first_position_prefix(list@, s@, i as int + 1);
            }
            return Some(i);
        }
        i += 1;
    }
    assert(list@.take(list.len() as int) =~= list@);
    None
}

proof fn lemma_first_position_range(list: Seq<String>, s: Seq<char>)
    ensures
        first_position(list, s) matches Some(i) ==> 0 <= i < list.len() && list[i]@ == s,
    decreases list.len(),
{
    if list.len() > 0 {
        lemma_first_position_range(list.drop_last(), s);
    }
}

proof fn lemma_first_position_prefix(list: Seq<String>, s: Seq<char>, n: int)
    requires
        0 <= n <= list.len(),
        first_position(list.take(n), s) is Some,
    ensures
        first_position(list, s) == first_position(list.take(n), s),
    decreases list.len(),
{
    if n < list.len() {
        assert(list.drop_last().take(n) =~= list.take(n));
        lemma_first_position_prefix(list.drop_last(), s, n);
    } else {
        assert(list.take(n) =~= list);
    }
}

/// Unarchives the file at `path`: the first entry with its archive name is removed. Returns
/// whether there was one; when there was none the list is unchanged.
pub fn unarchive_file(archived: &mut Vec<String>, path: &str) -> (found: bool)
    ensures
        found == first_position(old(archived)@, archive_name(path@)) is Some,
        match first_position(old(archived)@, archive_name(path@)) {
            Some(i) => final(archived)@ == old(archived)@.remove(i),
            None => final(archived)@ == old(archived)@,
        },
{
    let name = archive_name_of(path);
    let pos = position_of(archived, name.as_str());
    match pos {
        Some(i) => {
            let _removed = archived.remove(i);
            true
        },
        None => false,
    }
}

proof fn lemma_first_position_absent(list: Seq<String>, s: Seq<char>)
    requires
        forall|i: int| 0 <= i < list.len() ==> list[i]@ != s,
    ensures
        first_position(list, s) is None,
    decreases list.len(),
{
    if list.len() > 0 {
        lemma_first_position_absent(list.drop_last(), s);
    }
}

/// Archiving a file whose name is not yet archived and then unarchiving it gives back the
/// archive list it started from.
pub proof fn lemma_archive_then_unarchive(
    before: Seq<String>,
    archived: Seq<String>,
    restored: Seq<String>,
    path: Seq<char>,
)
    requires
        forall|i: int| 0 <= i < before.len() ==> before[i]@ != archive_name(path),
        archived.len() == before.len() + 1,
        archived.take(before.len() as int) == before,
        archived.last()@ == archive_name(path),
        match first_position(archived, archive_name(path)) {
            Some(i) => restored == archived.remove(i),
            None => restored == archived,
        },
    ensures
        restored == before,
{
    lemma_first_position_absent(before, archive_name(path));
    assert(archived.drop_last() =~= before);
    assert(first_position(archived, archive_name(path)) == Some(before.len() as int));
    assert(archived.remove(before.len() as int) =~= before);
}

/// The page that the website export wraps each note's html in.
pub open spec fn html_page(html_content: Seq<char>, page_title: Seq<char>) -> Seq<char> {
    "<!DOCTYPE html>\n<html lang=\"en\">\n\n<head>\n  <meta charset=\"UTF-8\">\n  <meta name=\"viewport\" content=\"width=device-width, initial-scale=1.0\">\n  <meta http-equiv=\"X-UA-Compatible\" content=\"ie=edge\">\n  <title>"@
        + page_title
        + "</title>\n  <link rel=\"stylesheet\" href=\"styles.css\">\n</head>\n\n<body>\n\n  <header>\n    <h1>"@
        + page_title
        + "</h1>\n    <nav>\n      <a href=\"/blog/index.html\">Home</a>\n    </nav>\n  </header>\n\n  <main>\n    "@
        + html_content + "\n  </main>\n</body>\n\n</html>"@
}

/// Wraps `html_content` in the website's page, titled `page_title`.
pub fn add_html_to_template(html_content: &str, page_title: &str) -> (r: String)
    ensures
        r@ == html_page(html_content@, page_title@),
{
    let mut out = String::new();
    push_str(
        &mut out,
        "<!DOCTYPE html>\n<html lang=\"en\">\n\n<head>\n  <meta charset=\"UTF-8\">\n  <meta name=\"viewport\" content=\"width=device-width, initial-scale=1.0\">\n  <meta http-equiv=\"X-UA-Compatible\" content=\"ie=edge\">\n  <title>",
    );
    push_str(&mut out, page_title);
    push_str(
        &mut out,
        "</title>\n  <link rel=\"stylesheet\" href=\"styles.css\">\n</head>\n\n<body>\n\n  <header>\n    <h1>",
    );
    push_str(&mut out, page_title);
    push_str(
        &mut out,
        "</h1>\n    <nav>\n      <a href=\"/blog/index.html\">Home</a>\n    </nav>\n  </header>\n\n  <main>\n    ",
    );
    push_str(&mut out, html_content);
    push_str(&mut out, "\n  </main>\n</body>\n\n</html>");
    out
}

/// The `pulldown_cmark` option bits the notes are rendered with: tables (`1 << 1`),
/// footnotes (`1 << 2`), strikethrough (`1 << 3`) and task lists (`1 << 4`).
pub const NOTE_MARKDOWN_OPTIONS: u32 = 30;

/// What `pulldown_cmark` renders a markdown text as, with the options whose bits are
/// `options` (`pulldown_cmark::Options`).
pub uninterp spec fn markdown_html(text: Seq<char>, options: u32) -> Seq<char>;

/// Renders markdown as html with `pulldown_cmark::html::push_html` over
/// `pulldown_cmark::Parser::new_ext`, with the options whose bits are `options` (bits that
/// name no option are dropped). The result is named `markdown_html`; nothing else is claimed
/// of it.
#[verifier::external_body]
fn render_markdown(text: &str, options: u32) -> (r: String)
    ensures
        r@ == markdown_html(text@, options),
{
    let parser =
        pulldown_cmark::Parser::new_ext(text, pulldown_cmark::Options::from_bits_truncate(options));
    let mut html_output = String::new();
    pulldown_cmark::html::push_html(&mut html_output, parser);
    html_output
}

/// Renders a note's markdown as html, with tables, footnotes, strikethrough and task lists
/// enabled.
pub fn convert_to_html(text_to_convert: &str) -> (r: String)
    ensures
        r@ == markdown_html(text_to_convert@, NOTE_MARKDOWN_OPTIONS),
{
    render_markdown(text_to_convert, NOTE_MARKDOWN_OPTIONS)
}

/// The website page for a note: the note's markdown rendered as html, titled with the note's
/// file name stem (empty when the path has none).
pub fn note_web_page(text: &str, note_path: &str) -> (r: String)
    ensures
        r@ == html_page(
            markdown_html(text@, NOTE_MARKDOWN_OPTIONS),
            match file_stem(note_path@) {
                Some(s) => s,
                None => seq![],
            },
        ),
{
    let body = convert_to_html(text);
    let title = match crate::paths::stem_of(note_path) {
        Some(s) => s,
        None => String::new(),
    };
    add_html_to_template(body.as_str(), title.as_str())
}

/// Where a note at `file` is written when exported to the website folder `website`, or why it
/// cannot be: no website folder, no file, or a file without a name.
pub open spec fn website_export_target(website: Option<Seq<char>>, file: Option<Seq<char>>) -> Result<
    Seq<char>,
    Seq<char>,
> {
    match website {
        None => Err("Can't export, folder for website files is not set"@),
        Some(w) => match file {
            None => Err("Can't export, filename for doc is not set"@),
            Some(f) => match file_stem(f) {
                None => Err("Can't export, markdown filename is not set"@),
                Some(st) => Ok(path_joined(w, st + ".html"@)),
            },
        },
    }
}

/// The html file a note at `file` is exported to in the website folder `website`, or the
/// message saying why it cannot be exported (see `website_export_target`).
pub fn website_export_path(website: Option<&str>, file: Option<&str>) -> (r: Result<String, String>)
    ensures
        website_export_target(
            match website {
                Some(w) => Some(w@),
                None => None,
            },
            match file {
                Some(f) => Some(f@),
                None => None,
            },
        ) == match r {
            Ok(p) => Ok(p@),
            Err(e) => Err(e@),
        },
{
    let w = match website {
        Some(w) => w,
        None => {
            return Err("Can't export, folder for website files is not set".to_owned());
        },
    };
    let f = match file {
        Some(f) => f,
        None => {
            return Err("Can't export, filename for doc is not set".to_owned());
        },
    };
    match stem_of(f) {
        Some(stem) => {
            let mut name = stem;
            push_str(&mut name, ".html");
            Ok(join_path(w, name.as_str()))
        },
        None => Err("Can't export, markdown filename is not set".to_owned()),
    }
}

/// `s` ends with `suffix`.
pub open spec fn ends_with(s: Seq<char>, suffix: Seq<char>) -> bool {
    suffix.len() <= s.len() && s.skip(s.len() - suffix.len()) == suffix
}

fn ends_with_exec(s: &Vec<char>, suffix: &Vec<char>) -> (b: bool)
    ensures
        b == ends_with(s@, suffix@),
{
    if suffix.len() > s.len() {
        return false;
    }
    let off = s.len() - suffix.len();
    let mut i: usize = 0;
    while i < suffix.len()
        invariant
            off == s.len() - suffix.len(),
            i <= suffix.len(),
            forall|j: int| 0 <= j < i ==> s@[off + j] == suffix@[j],
        decreases suffix.len() - i,
    {
        if s[off + i] != suffix[i] {
            assert(s@.skip(off as int)[i as int] != suffix@[i as int]);
            return false;
        }
        i += 1;
    }
    assert(s@.skip(off as int) =~= suffix@);
    true
}

/// A file of the website folder is listed on the blog's index page unless it is the style
/// sheet or the style sheet's edit history.
pub open spec fn listed_on_index(path: Seq<char>) -> bool {
    !ends_with(path, "styles.css"@) && !ends_with(path, ".styles.css.loro"@)
}

/// The link that the index page shows for a file at `relative_path` in the website folder.
pub open spec fn index_link(relative_path: Seq<char>) -> Seq<char> {
    "<a href=\"/blog/"@ + relative_path + "\">"@ + relative_path + "</a><br>"@
}

/// The links of the listed files among `files` (each a path and that path relative to the
/// website folder), in order.
pub open spec fn index_links(files: Seq<(String, String)>) -> Seq<char>
    decreases files.len(),
{
    if files.len() == 0 {
        seq![]
    } else {
        index_links(files.drop_last()) + if listed_on_index(files.last().0@) {
            index_link(files.last().1@)
        } else {
            seq![]
        }
    }
}

/// The blog's index page, linking each listed file among `files`; each file is given by its
/// path and by its path relative to the website folder.
pub fn blog_index_page(files: &Vec<(String, String)>) -> (r: String)
    ensures
        r@ == html_page(index_links(files@), "Index"@),
{
    let styles: Vec<char> = chars_of("styles.css");
    let history: Vec<char> = chars_of(".styles.css.loro");
    let mut links = String::new();
    let mut i: usize = 0;
    while i < files.len()
        invariant
            i <= files.len(),
            styles@ == "styles.css"@,
            history@ == ".styles.css.loro"@,
            links@ == index_links(files@.take(i as int)),
        decreases files.len() - i,
    {
        assert(files@.take(i + 1).drop_last() =~= files@.take(i as int));
        let path = chars_of(files[i].0.as_str());
        if !ends_with_exec(&path, &styles) && !ends_with_exec(&path, &history) {
            push_str(&mut links, "<a href=\"/blog/");
            push_str(&mut links, files[i].1.as_str());
            push_str(&mut links, "\">");
            push_str(&mut links, files[i].1.as_str());
            push_str(&mut links, "</a><br>");
            assert(links@ =~= index_links(files@.take(i as int)) + index_link(files@[i as int].1@));
        } else {
            assert(links@ =~= index_links(files@.take(i as int)) + seq![]);
        }
        i += 1;
    }
    assert(files@.take(files.len() as int) =~= files@);
    add_html_to_template(links.as_str(), "Index")
}

} // verus!
