use git_commit_summarizer::text::{
    char_is_whitespace, chars_of, decimal_text, join, string_of, text_is_blank,
};

#[test]
fn white_space_is_that_of_the_standard_library() {
    for v in 0..=0x10FFFFu32 {
        if let Some(c) = char::from_u32(v) {
            assert_eq!(char_is_whitespace(c), c.is_whitespace(), "U+{:04X}", v);
        }
    }
}

#[test]
fn blank_text_is_what_trims_to_nothing() {
    for text in ["", " ", "\n\n", " \t\r\n\u{a0}\u{3000}", "x", " x ", "\n.\n", "\u{200b}"] {
        assert_eq!(text_is_blank(text), text.trim().is_empty(), "{:?}", text);
    }
    assert!(text_is_blank(" \n\t"));
    assert!(!text_is_blank(" \n\t-"));
}

#[test]
fn decimal_text_is_the_usual_notation() {
    assert_eq!(decimal_text(0), "0");
    assert_eq!(decimal_text(7), "7");
    assert_eq!(decimal_text(10), "10");
    assert_eq!(decimal_text(109), "109");
    assert_eq!(decimal_text(12345), "12345");
    assert_eq!(decimal_text(usize::MAX), usize::MAX.to_string());
}

#[test]
fn join_puts_the_separator_between() {
    let none: Vec<String> = vec![];
    assert_eq!(join(&none, "\n\n"), "");
    assert_eq!(join(&vec!["a".to_string()], "\n\n"), "a");
    assert_eq!(join(&vec!["a".to_string(), "".to_string(), "c".to_string()], "\n\n"), "a\n\n\n\nc");
    let parts = vec!["one".to_string(), "two".to_string(), "three".to_string()];
    assert_eq!(join(&parts, ", "), parts.join(", "));
}

#[test]
fn characters_go_in_and_out_unchanged() {
    let text = "a\u{e9}\u{4e2d}\u{1F600}z";
    let chars = chars_of(text);
    assert_eq!(chars, text.chars().collect::<Vec<char>>());
    assert_eq!(string_of(&chars, 0, chars.len()), text);
    assert_eq!(string_of(&chars, 1, 3), "\u{e9}\u{4e2d}");
    assert_eq!(string_of(&chars, 2, 2), "");
}
