use db_sqlx_postgres::text::{chars_of, str_contains, str_equals};

#[test]
fn contains_finds_substrings() {
    assert!(str_contains("duplicate key gists_users_email_key", "gists_users_email_key"));
    assert!(str_contains("abc", "abc"));
    assert!(str_contains("abc", "a"));
    assert!(str_contains("abc", "c"));
    assert!(str_contains("abc", "bc"));
    assert!(str_contains("abc", ""));
    assert!(str_contains("", ""));
}

#[test]
fn contains_rejects_non_substrings() {
    assert!(!str_contains("abc", "abcd"));
    assert!(!str_contains("abc", "ac"));
    assert!(!str_contains("", "a"));
    assert!(!str_contains("gists_users_username", "gists_users_username_key"));
}

#[test]
fn contains_works_on_non_ascii() {
    assert!(str_contains("héllo wörld", "ö"));
    assert!(str_contains("héllo wörld", "llo w"));
    assert!(!str_contains("héllo", "e"));
}

#[test]
fn equals_compares_characters() {
    assert!(str_equals("23505", "23505"));
    assert!(str_equals("", ""));
    assert!(!str_equals("23505", "2350"));
    assert!(!str_equals("23505", "23504"));
    assert!(!str_equals("a", ""));
}

#[test]
fn chars_of_keeps_order() {
    assert_eq!(chars_of("aé z"), vec!['a', 'é', ' ', 'z']);
    assert!(chars_of("").is_empty());
}
