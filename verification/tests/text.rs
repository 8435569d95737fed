use ark::text::{find_char, same_text, starts_with};

#[test]
fn starts_with_accepts_a_prefix() {
    assert!(starts_with("Save workspace image?", "Save workspace"));
    assert!(starts_with("abc", "abc"));
    assert!(starts_with("abc", ""));
    assert!(starts_with("", ""));
}

#[test]
fn starts_with_rejects_what_is_no_prefix() {
    assert!(!starts_with("abc", "abd"));
    assert!(!starts_with("ab", "abc"));
    assert!(!starts_with("", "a"));
    assert!(!starts_with("xabc", "abc"));
}

#[test]
fn starts_with_compares_characters_not_bytes() {
    assert!(starts_with("héllo", "hé"));
    assert!(!starts_with("héllo", "he"));
    assert!(starts_with("日本語", "日本"));
}

#[test]
fn find_char_returns_the_first_position() {
    assert_eq!(find_char("a.b.c", '.'), Some(1));
    assert_eq!(find_char(".", '.'), Some(0));
    assert_eq!(find_char("abc.", '.'), Some(3));
}

#[test]
fn find_char_counts_characters() {
    assert_eq!(find_char("héé.x", '.'), Some(3));
}

#[test]
fn find_char_returns_none_where_absent() {
    assert_eq!(find_char("abc", '.'), None);
    assert_eq!(find_char("", '.'), None);
}

#[test]
fn same_text_holds_of_equal_text_only() {
    assert!(same_text("> ", "> "));
    assert!(same_text("", ""));
    assert!(!same_text("> ", ">"));
    assert!(!same_text(">", "> "));
    assert!(!same_text("a", "b"));
}
