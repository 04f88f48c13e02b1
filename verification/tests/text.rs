use platform_macos::paths::{enclosing_app_bundle, path_components, same_path};
use platform_macos::text::{
    characters, contains_text, holds_text, index_at_utf16, is_blank, join_texts, push_decimal,
    push_hex, push_signed_decimal, same_ignoring_ascii_case, same_optional_text, same_texts,
    text_at_most, utf16_count, utf16_length,
};

#[test]
fn texts_are_compared_exactly() {
    let some = |text: &str| Some(text.to_owned());
    assert!(same_optional_text(&some("abc"), &some("abc")));
    assert!(!same_optional_text(&some("abc"), &some("abd")));
    assert!(!same_optional_text(&some("abc"), &some("ab")));
    assert_eq!(utf16_count("a\u{1f600}"), 3);
    assert!(same_optional_text(&None, &None));
    assert!(!same_optional_text(&None, &Some(String::new())));
    assert!(same_ignoring_ascii_case("Finder", "fINDER"));
    assert!(!same_ignoring_ascii_case("É", "é"));
    assert!(text_at_most("Alpha", "Beta"));
    assert!(text_at_most("a", "a"));
    assert!(!text_at_most("b", "a"));
    assert!(contains_text("a sample here", "sample"));
    assert!(!contains_text("a", "ab"));
    assert!(contains_text("a", ""));
}

#[test]
fn numbers_are_written_in_full() {
    let mut text = String::new();
    push_decimal(&mut text, 0);
    push_decimal(&mut text, 120);
    push_signed_decimal(&mut text, i64::MIN);
    push_hex(&mut text, 0xab, 4);
    assert_eq!(text, "0120-922337203685477580800ab");
}

#[test]
fn utf16_offsets_are_character_boundaries() {
    let list = characters("a😀b");
    assert_eq!(utf16_length(&list, 0, 3), Some(4));
    assert_eq!(index_at_utf16(&list, 1), Some(1));
    assert_eq!(index_at_utf16(&list, 2), None);
    assert_eq!(index_at_utf16(&list, 3), Some(2));
    assert_eq!(index_at_utf16(&list, 4), Some(3));
    assert_eq!(index_at_utf16(&list, 5), None);
}

#[test]
fn lists_of_texts() {
    let list = vec!["a".to_owned(), "b".to_owned()];
    assert_eq!(join_texts(&list, "+"), "a+b");
    assert!(holds_text(&list, "b"));
    assert!(!holds_text(&list, "c"));
    assert!(same_texts(&list, &list));
    assert!(is_blank(" \t\n"));
    assert!(is_blank(""));
    assert!(is_blank("\u{2003}"));
    assert!(!is_blank(" a "));
}

#[test]
fn paths_are_compared_by_component() {
    assert!(same_path("/a//b/./c", "/a/b/c"));
    assert!(!same_path("/a/b", "a/b"));
    assert_eq!(path_components("/a/b"), vec!["a", "b"]);
    assert_eq!(
        enclosing_app_bundle("/Applications/X.app/Contents/MacOS/x").as_deref(),
        Some("/Applications/X.app")
    );
    assert_eq!(enclosing_app_bundle("/usr/bin/x"), None);
}
