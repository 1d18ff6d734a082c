use idirfein::editor::{get_editor_offset, get_selection_location};
use idirfein::markdown_lists::{
    closing_bracket, edits_for_list_action, is_decimal_digit_exec, parse_markdown_lists, ListAction,
    ListEdit,
};

#[test]
fn no_line_means_no_action() {
    assert_eq!(parse_markdown_lists(None, 0), ListAction::NoAction);
    assert_eq!(parse_markdown_lists(Some("plain text"), 3), ListAction::NoAction);
    assert_eq!(parse_markdown_lists(Some("*bold*"), 3), ListAction::NoAction);
}

#[test]
fn bullet_with_text_is_continued() {
    assert_eq!(
        parse_markdown_lists(Some("* milk"), 6),
        ListAction::AddUnorderedListItem { list_char: '*', indent_amount: 0, has_check_box: false }
    );
    assert_eq!(
        parse_markdown_lists(Some("   - [x] eggs"), 4),
        ListAction::AddUnorderedListItem { list_char: '-', indent_amount: 3, has_check_box: true }
    );
    assert_eq!(
        parse_markdown_lists(Some("  *\tbread"), 2),
        ListAction::AddUnorderedListItem { list_char: '*', indent_amount: 2, has_check_box: false }
    );
}

#[test]
fn empty_bullet_is_removed() {
    assert_eq!(
        parse_markdown_lists(Some("* "), 2),
        ListAction::DeleteUnorderedListItem { cursor_x_pos: 2, indent_amount: 0, has_check_box: false }
    );
    assert_eq!(
        parse_markdown_lists(Some("  - [ ] "), 8),
        ListAction::DeleteUnorderedListItem { cursor_x_pos: 8, indent_amount: 2, has_check_box: true }
    );
}

#[test]
fn numbered_items() {
    assert_eq!(
        parse_markdown_lists(Some("9. ninth"), 8),
        ListAction::AddOrderedListItem { num_to_insert: 10, indent_amount: 0, has_check_box: false }
    );
    assert_eq!(
        parse_markdown_lists(Some("  12. [ ] task"), 5),
        ListAction::AddOrderedListItem { num_to_insert: 13, indent_amount: 2, has_check_box: true }
    );
    assert_eq!(
        parse_markdown_lists(Some("3. "), 3),
        ListAction::DeleteOrderedListItem {
            current_num: 3,
            cursor_x_pos: 3,
            indent_amount: 0,
            has_check_box: false
        }
    );
    assert_eq!(parse_markdown_lists(Some("3.x"), 3), ListAction::NoAction);
}

#[test]
fn bullets_win_over_numbers() {
    assert_eq!(
        parse_markdown_lists(Some("* 1. a"), 0),
        ListAction::AddUnorderedListItem { list_char: '*', indent_amount: 0, has_check_box: false }
    );
}

#[test]
fn continuing_a_bullet_types_its_marker() {
    let a = ListAction::AddUnorderedListItem { list_char: '-', indent_amount: 2, has_check_box: true };
    assert_eq!(
        edits_for_list_action(a),
        vec![
            ListEdit::Enter,
            ListEdit::Insert(' '),
            ListEdit::Insert(' '),
            ListEdit::Insert('-'),
            ListEdit::Insert(' '),
            ListEdit::Insert('['),
            ListEdit::Insert(' '),
            ListEdit::Insert(']'),
            ListEdit::Insert(' '),
        ]
    );
    assert_eq!(edits_for_list_action(ListAction::NoAction), vec![ListEdit::Enter]);
}

#[test]
fn continuing_a_numbered_item_types_the_next_number() {
    let a = ListAction::AddOrderedListItem { num_to_insert: 10, indent_amount: 0, has_check_box: false };
    assert_eq!(
        edits_for_list_action(a),
        vec![
            ListEdit::Enter,
            ListEdit::Insert('1'),
            ListEdit::Insert('0'),
            ListEdit::Insert('.'),
            ListEdit::Insert(' '),
        ]
    );
}

#[test]
fn removing_an_empty_item() {
    let a = ListAction::DeleteUnorderedListItem { cursor_x_pos: 1, indent_amount: 0, has_check_box: false };
    assert_eq!(edits_for_list_action(a), vec![ListEdit::Backspace, ListEdit::Delete]);
    let b = ListAction::DeleteOrderedListItem {
        current_num: 12,
        cursor_x_pos: 2,
        indent_amount: 1,
        has_check_box: true,
    };
    let mut expected = vec![ListEdit::Backspace, ListEdit::Backspace];
    expected.extend(std::iter::repeat(ListEdit::Delete).take(7));
    assert_eq!(edits_for_list_action(b), expected);
    let c = ListAction::DeleteUnorderedListItem { cursor_x_pos: 9, indent_amount: 0, has_check_box: false };
    assert_eq!(edits_for_list_action(c), vec![ListEdit::Backspace; 9]);
}

#[test]
fn brackets_close() {
    assert_eq!(closing_bracket('('), Some(')'));
    assert_eq!(closing_bracket('['), Some(']'));
    assert_eq!(closing_bracket('{'), Some('}'));
    assert_eq!(closing_bracket('"'), Some('"'));
    assert_eq!(closing_bracket('`'), Some('`'));
    assert_eq!(closing_bracket('<'), None);
    assert_eq!(closing_bracket('a'), None);
}

#[test]
fn unicode_decimal_digits() {
    assert!(is_decimal_digit_exec('0'));
    assert!(is_decimal_digit_exec('9'));
    assert!(is_decimal_digit_exec('٣'));
    assert!(is_decimal_digit_exec('𝟘'));
    assert!(!is_decimal_digit_exec('a'));
    assert!(!is_decimal_digit_exec('½'));
}

#[test]
fn editor_offset_counts_line_breaks() {
    let lines = vec!["ab".to_string(), "cde".to_string(), "f".to_string()];
    assert_eq!(get_editor_offset(&lines, 0, 1), 1);
    assert_eq!(get_editor_offset(&lines, 1, 0), 3);
    assert_eq!(get_editor_offset(&lines, 2, 1), 8);
    assert_eq!(get_editor_offset(&lines, 7, 0), 9);
    let unicode = vec!["éé".to_string(), "x".to_string()];
    assert_eq!(get_editor_offset(&unicode, 1, 1), 4);
}

#[test]
fn selection_found_around_cursor() {
    assert_eq!(get_selection_location(None, "abc abc", 0), None);
    assert_eq!(get_selection_location(Some("abc"), "abc abc", 1), Some((0, 3)));
    assert_eq!(get_selection_location(Some("abc"), "abc abc", 3), Some((0, 3)));
    assert_eq!(get_selection_location(Some("abc"), "abc abc", 5), Some((4, 3)));
    assert_eq!(get_selection_location(Some("xyz"), "abc abc", 5), None);
    assert_eq!(get_selection_location(Some("aa"), "aaa", 2), Some((0, 2)));
    assert_eq!(get_selection_location(Some("aa"), "aaa", 3), Some((1, 2)));
}
