use tmux_ui_manager::text::{contains_char, decimal_text, text_eq, trim};
use tmux_ui_manager::tmux::snapshot::numeric_reason;

#[test]
fn trim_removes_unicode_white_space_at_both_ends() {
    assert_eq!(trim("  a b \n"), "a b");
    assert_eq!(trim("\u{3000}x\u{a0}"), "x");
    assert_eq!(trim(""), "");
}

#[test]
fn decimal_text_writes_numbers() {
    assert_eq!(decimal_text(0), "0");
    assert_eq!(decimal_text(1234567), "1234567");
}

#[test]
fn numeric_reason_names_the_field_and_its_quoted_text() {
    assert_eq!(numeric_reason("pane_index", "\"x\""), "expected numeric pane_index, got \"x\"");
    assert_eq!(numeric_reason("", ""), "expected numeric , got ");
}

#[test]
fn char_and_text_comparisons() {
    assert!(contains_char("a:b", ':'));
    assert!(!contains_char("ab", '.'));
    assert!(text_eq("ab", "ab"));
    assert!(!text_eq("ab", "abc"));
}
