use std::path::Path;

use idirfein::path_order::{components_of, parent_of, path_order, Component, PathOrder};
use idirfein::paths::{extension_of, file_name_of, join_path, stem_of};
use idirfein::text::{
    chars_of, contains_chars, contains_ignoring_case, is_whitespace, str_eq, string_from_chars,
    string_from_range, strip_url_scheme, u32_decimal_digits,
};

const SAMPLE_PATHS: [&str; 22] = [
    "",
    "/",
    "a",
    "/a",
    "/a/b",
    "a/b/",
    "a//b",
    "./a",
    ".",
    "..",
    "a/..",
    "a/.",
    "/a/./b/.",
    "notes/todo.md",
    "/home/ana/pics/IMG_0001.JPG",
    "archive.tar.gz",
    ".bashrc",
    "dir/.hidden.txt",
    "trailing.",
    "x/y/z.md/",
    "//double",
    "../up/file.rs",
];

fn std_name(p: &str) -> Option<String> {
    Path::new(p).file_name().map(|s| s.to_string_lossy().into_owned())
}

#[test]
fn file_name_matches_std_path() {
    for p in SAMPLE_PATHS {
        assert_eq!(file_name_of(p), std_name(p), "file name of {p:?}");
    }
}

#[test]
fn stem_and_extension_match_std_path() {
    for p in SAMPLE_PATHS {
        let stem = Path::new(p).file_stem().map(|s| s.to_string_lossy().into_owned());
        let ext = Path::new(p).extension().map(|s| s.to_string_lossy().into_owned());
        assert_eq!(stem_of(p), stem, "stem of {p:?}");
        assert_eq!(extension_of(p), ext, "extension of {p:?}");
    }
}

#[test]
fn stem_and_extension_examples() {
    assert_eq!(stem_of("archive.tar.gz"), Some("archive.tar".to_string()));
    assert_eq!(extension_of("archive.tar.gz"), Some("gz".to_string()));
    assert_eq!(stem_of(".bashrc"), Some(".bashrc".to_string()));
    assert_eq!(extension_of(".bashrc"), None);
    assert_eq!(extension_of("trailing."), Some(String::new()));
    assert_eq!(file_name_of("/"), None);
}

#[test]
fn parent_matches_std_path() {
    for p in SAMPLE_PATHS {
        let parent = Path::new(p).parent().map(|s| s.to_string_lossy().into_owned());
        assert_eq!(parent_of(p), parent, "parent of {p:?}");
    }
}

#[test]
fn parent_examples() {
    assert_eq!(parent_of("/a/b"), Some("/a".to_string()));
    assert_eq!(parent_of("a"), Some(String::new()));
    assert_eq!(parent_of("/"), None);
    assert_eq!(parent_of(""), None);
}

#[test]
fn join_matches_std_path() {
    let pairs = [
        ("/home/ana", "notes"),
        ("/home/ana/", "notes"),
        ("", "notes"),
        ("/home", "/etc"),
        ("a", ""),
    ];
    for (base, name) in pairs {
        let expected = Path::new(base).join(name).to_string_lossy().into_owned();
        assert_eq!(join_path(base, name), expected, "join {base:?} {name:?}");
    }
    assert_eq!(join_path("/home/ana", "notes"), "/home/ana/notes".to_string());
}

#[test]
fn path_order_matches_std_path() {
    for a in SAMPLE_PATHS {
        for b in SAMPLE_PATHS {
            let expected = match Path::new(a).cmp(Path::new(b)) {
                std::cmp::Ordering::Less => PathOrder::Before,
                std::cmp::Ordering::Equal => PathOrder::Same,
                std::cmp::Ordering::Greater => PathOrder::After,
            };
            assert_eq!(path_order(a, b), expected, "order of {a:?} and {b:?}");
        }
    }
}

#[test]
fn path_order_examples() {
    assert_eq!(path_order("/a/b", "/a/b/"), PathOrder::Same);
    assert_eq!(path_order("a//b", "a/./b"), PathOrder::Same);
    assert_eq!(path_order("/a", "a"), PathOrder::Before);
    assert_eq!(path_order("a/b", "a-b"), PathOrder::Before);
    assert_eq!(path_order("b", "a/z"), PathOrder::After);
}

#[test]
fn components_examples() {
    let comps = components_of("/a/./b/../c/");
    assert_eq!(comps.len(), 5);
    assert!(matches!(comps[0], Component::RootDir));
    assert!(matches!(&comps[1], Component::Normal(n) if n == &vec!['a']));
    assert!(matches!(&comps[2], Component::Normal(n) if n == &vec!['b']));
    assert!(matches!(comps[3], Component::ParentDir));
    assert!(matches!(&comps[4], Component::Normal(n) if n == &vec!['c']));
    let rel = components_of("./x");
    assert_eq!(rel.len(), 2);
    assert!(matches!(rel[0], Component::CurDir));
}

#[test]
fn text_helpers() {
    assert!(is_whitespace(' '));
    assert!(is_whitespace('\n'));
    assert!(is_whitespace('\u{3000}'));
    assert!(!is_whitespace('x'));
    let cs = chars_of("héllo");
    assert_eq!(cs, vec!['h', 'é', 'l', 'l', 'o']);
    assert_eq!(string_from_chars(&cs), "héllo".to_string());
    assert_eq!(string_from_range(&cs, 1, 3), "él".to_string());
    assert!(contains_chars(&cs, &['l', 'o']));
    assert!(!contains_chars(&cs, &['o', 'l']));
    assert!(contains_chars(&cs, &[]));
    assert!(str_eq("abc", "abc"));
    assert!(!str_eq("abc", "abd"));
}

#[test]
fn case_insensitive_search_lower_cases_both_sides() {
    assert!(contains_ignoring_case("Shopping LIST", "list"));
    assert!(contains_ignoring_case("shopping list", "LIST"));
    assert!(contains_ignoring_case("ÉTÉ", "été"));
    assert!(!contains_ignoring_case("Shopping", "lists"));
    assert!(contains_ignoring_case("anything", ""));
}

#[test]
fn url_scheme_is_stripped_after_last_separator() {
    assert_eq!(strip_url_scheme("https://example.com"), "example.com".to_string());
    assert_eq!(strip_url_scheme("a://b://c"), "c".to_string());
    assert_eq!(strip_url_scheme("example.com"), "example.com".to_string());
}

#[test]
fn decimal_digits_of_numbers() {
    assert_eq!(u32_decimal_digits(0), vec!['0']);
    assert_eq!(u32_decimal_digits(7), vec!['7']);
    assert_eq!(u32_decimal_digits(1203), vec!['1', '2', '0', '3']);
    assert_eq!(u32_decimal_digits(u32::MAX), "4294967295".chars().collect::<Vec<char>>());
}

#[test]
fn white_space_matches_std() {
    for v in 0u32..0x3100 {
        if let Some(c) = char::from_u32(v) {
            assert_eq!(is_whitespace(c), c.is_whitespace(), "code point {v:#x}");
        }
    }
}
