use backend::text::{contains_text, extract_user_id, same_text};

#[test]
fn same_text_compares_characters() {
    assert!(same_text("abc", "abc"));
    assert!(same_text("", ""));
    assert!(!same_text("abc", "abd"));
    assert!(!same_text("abc", "ab"));
    assert!(same_text("héllo", "héllo"));
}

#[test]
fn contains_text_finds_substrings() {
    assert!(contains_text("/x/api/ws?y", "/api/ws"));
    assert!(contains_text("abc", ""));
    assert!(contains_text("abc", "abc"));
    assert!(!contains_text("ab", "abc"));
    assert!(!contains_text("aab", "abb"));
}

#[test]
fn user_id_is_text_after_last_separator() {
    assert_eq!(extract_user_id("/api/ws?user_id=bob"), "bob");
    assert_eq!(extract_user_id("/p=q/api/ws?user"), "user");
    assert_eq!(extract_user_id("/a?b/c=d"), "d");
    assert_eq!(extract_user_id("plain"), "plain");
    assert_eq!(extract_user_id(""), "");
    assert_eq!(extract_user_id("/api/ws?id=é"), "é");
}
