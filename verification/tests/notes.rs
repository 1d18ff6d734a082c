use idirfein::notes::{
    add_html_to_template, archive_file, archive_name_of, blog_index_page, convert_to_html,
    dictionary_folder, website_export_path,
    note_for_file, note_statistics, note_web_page, notes_matching_filter, position_of,
    sort_notes_newest_first, take_first_n_chars, unarchive_file, Note,
};

fn note(title: &str, edited: u64) -> Note {
    Note { button_title: title.to_string(), file_path: format!("/n/{title}.md"), last_edited: edited }
}

#[test]
fn take_first_n_chars_counts_characters() {
    assert_eq!(take_first_n_chars("hello world", 5), "hello".to_string());
    assert_eq!(take_first_n_chars("héllo", 2), "hé".to_string());
    assert_eq!(take_first_n_chars("short", 30), "short".to_string());
    assert_eq!(take_first_n_chars("", 3), String::new());
    assert_eq!(take_first_n_chars("abc", 0), String::new());
}

#[test]
fn take_first_n_chars_twice_changes_nothing() {
    let once = take_first_n_chars("a rather long note title indeed", 10);
    assert_eq!(take_first_n_chars(&once, 10), once);
}

#[test]
fn statistics_of_a_note() {
    let s = note_statistics("one two  three");
    assert_eq!(s.char_count, 14);
    assert_eq!(s.word_count, 4);
    assert_eq!(s.reading_time_in_mins, 0);
    let empty = note_statistics("");
    assert_eq!(empty.char_count, 0);
    assert_eq!(empty.word_count, 1);
    let long = "w ".repeat(400);
    let l = note_statistics(&long);
    assert_eq!(l.word_count, 401);
    assert_eq!(l.reading_time_in_mins, 2);
    assert_eq!(note_statistics("ééé").char_count, 3);
}

#[test]
fn notes_come_from_markdown_files() {
    let n = note_for_file("/notes/Shopping list.md", 42).expect("a markdown file");
    assert_eq!(n.button_title, "Shopping list".to_string());
    assert_eq!(n.file_path, "/notes/Shopping list.md".to_string());
    assert_eq!(n.last_edited, 42);
    assert!(note_for_file("/notes/picture.png", 1).is_none());
    assert!(note_for_file("/notes/README", 1).is_none());
    let long = note_for_file("/notes/abcdefghijklmnopqrstuvwxyz0123456789.md", 0).unwrap();
    assert_eq!(long.button_title, "abcdefghijklmnopqrstuvwxyz0123".to_string());
}

#[test]
fn notes_sorted_newest_first() {
    let sorted = sort_notes_newest_first(vec![note("a", 5), note("b", 9), note("c", 1), note("d", 9)]);
    let times: Vec<u64> = sorted.iter().map(|n| n.last_edited).collect();
    assert_eq!(times, vec![9, 9, 5, 1]);
    let mut titles: Vec<String> = sorted.iter().map(|n| n.button_title.clone()).collect();
    titles.sort();
    assert_eq!(titles, vec!["a", "b", "c", "d"]);
    assert!(sort_notes_newest_first(vec![]).is_empty());
}

#[test]
fn notes_filter_ignores_case() {
    let notes = vec![note("Shopping", 1), note("Holiday PLANS", 2), note("shop front", 3)];
    assert_eq!(notes_matching_filter(&notes, "SHOP"), vec![0, 2]);
    assert_eq!(notes_matching_filter(&notes, "plans"), vec![1]);
    assert_eq!(notes_matching_filter(&notes, ""), vec![0, 1, 2]);
    assert_eq!(notes_matching_filter(&notes, "zzz"), Vec::<usize>::new());
}

#[test]
fn archive_names_are_lower_case_stems() {
    assert_eq!(archive_name_of("/notes/Shopping List.md"), "shopping list".to_string());
    assert_eq!(archive_name_of("/"), String::new());
}

#[test]
fn archive_then_unarchive_restores_list() {
    let mut archived = vec!["old".to_string()];
    archive_file(&mut archived, "/notes/Trip.md");
    assert_eq!(archived, vec!["old".to_string(), "trip".to_string()]);
    assert_eq!(position_of(&archived, "trip"), Some(1));
    assert!(unarchive_file(&mut archived, "/elsewhere/TRIP.md"));
    assert_eq!(archived, vec!["old".to_string()]);
}

#[test]
fn unarchive_of_unknown_note_changes_nothing() {
    let mut archived = vec!["a".to_string(), "b".to_string()];
    assert!(!unarchive_file(&mut archived, "/notes/c.md"));
    assert_eq!(archived, vec!["a".to_string(), "b".to_string()]);
    assert_eq!(position_of(&archived, "c"), None);
}

#[test]
fn unarchive_removes_first_match_only() {
    let mut archived = vec!["x".to_string(), "y".to_string(), "x".to_string()];
    assert!(unarchive_file(&mut archived, "x.md"));
    assert_eq!(archived, vec!["y".to_string(), "x".to_string()]);
}

const PAGE_START: &str = "<!DOCTYPE html>\n<html lang=\"en\">\n\n<head>\n  <meta charset=\"UTF-8\">\n  <meta name=\"viewport\" content=\"width=device-width, initial-scale=1.0\">\n  <meta http-equiv=\"X-UA-Compatible\" content=\"ie=edge\">\n  <title>";

fn expected_page(content: &str, title: &str) -> String {
    format!(
        "{PAGE_START}{title}</title>\n  <link rel=\"stylesheet\" href=\"styles.css\">\n</head>\n\n<body>\n\n  <header>\n    <h1>{title}</h1>\n    <nav>\n      <a href=\"/blog/index.html\">Home</a>\n    </nav>\n  </header>\n\n  <main>\n    {content}\n  </main>\n</body>\n\n</html>"
    )
}

#[test]
fn html_template_wraps_content() {
    assert_eq!(add_html_to_template("<p>hi</p>", "Greeting"), expected_page("<p>hi</p>", "Greeting"));
}

#[test]
fn markdown_is_rendered() {
    assert_eq!(convert_to_html("# Title"), "<h1>Title</h1>\n".to_string());
    assert_eq!(convert_to_html("~~gone~~"), "<p><del>gone</del></p>\n".to_string());
}

#[test]
fn note_page_uses_file_stem_as_title() {
    let page = note_web_page("*hi*", "/notes/My Post.md");
    assert_eq!(page, expected_page("<p><em>hi</em></p>\n", "My Post"));
}

#[test]
fn blog_index_lists_pages_but_not_styles() {
    let files = vec![
        ("/site/a.html".to_string(), "a.html".to_string()),
        ("/site/styles.css".to_string(), "styles.css".to_string()),
        ("/site/posts/b.html".to_string(), "posts/b.html".to_string()),
        ("/site/.styles.css.loro".to_string(), ".styles.css.loro".to_string()),
    ];
    let expected = expected_page(
        "<a href=\"/blog/a.html\">a.html</a><br><a href=\"/blog/posts/b.html\">posts/b.html</a><br>",
        "Index",
    );
    assert_eq!(blog_index_page(&files), expected);
    assert_eq!(blog_index_page(&vec![]), expected_page("", "Index"));
}

#[test]
fn the_dictionary_falls_back_to_the_language_then_english() {
    let present = vec!["EN-GB".to_string(), "DE".to_string(), "EN".to_string()];
    assert_eq!(dictionary_folder("/d", "en-gb", &present), "/d/EN-GB");
    assert_eq!(dictionary_folder("/d", "de-AT", &present), "/d/DE");
    assert_eq!(dictionary_folder("/d", "fr-FR", &present), "/d/EN");
    assert_eq!(dictionary_folder("/d/", "ga", &vec![]), "/d/EN");
}

#[test]
fn website_export_targets_and_refusals() {
    assert_eq!(website_export_path(Some("/site"), Some("/n/Trip.md")), Ok("/site/Trip.html".to_string()));
    assert_eq!(website_export_path(Some("/site/"), Some("/n/a.b.md")), Ok("/site/a.b.html".to_string()));
    assert_eq!(
        website_export_path(None, Some("/n/Trip.md")),
        Err("Can't export, folder for website files is not set".to_string())
    );
    assert_eq!(
        website_export_path(Some("/site"), None),
        Err("Can't export, filename for doc is not set".to_string())
    );
    assert_eq!(
        website_export_path(Some("/site"), Some("/")),
        Err("Can't export, markdown filename is not set".to_string())
    );
}
