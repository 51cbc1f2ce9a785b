use progress_sync::keys::{doc_key, is_valid_key_field, user_key};

#[test]
fn user_key_wraps_the_name() {
    assert_eq!(user_key("alice"), "user:alice:key");
}

#[test]
fn doc_key_joins_user_and_document() {
    assert_eq!(doc_key("alice", "book1"), "user:alice:document:book1");
}

#[test]
fn empty_field_is_invalid() {
    assert!(!is_valid_key_field(""));
}

#[test]
fn field_with_separator_is_invalid() {
    assert!(!is_valid_key_field("a:b"));
    assert!(!is_valid_key_field(":"));
    assert!(!is_valid_key_field("ab:"));
}

#[test]
fn plain_field_is_valid() {
    assert!(is_valid_key_field("alice"));
    assert!(is_valid_key_field("b\u{e9}b\u{e9} 42"));
}

#[test]
fn keys_of_distinct_users_differ() {
    assert_ne!(user_key("alice"), user_key("bob"));
    assert_ne!(user_key("a"), user_key("ab"));
    assert_ne!(doc_key("alice", "book1"), doc_key("bob", "book1"));
    assert_ne!(doc_key("alice", "book1"), doc_key("alice", "book2"));
}

#[test]
fn credential_key_is_no_progress_key() {
    assert_ne!(user_key("alice"), doc_key("alice", "key"));
    assert_ne!(user_key("document"), doc_key("", "key"));
}

#[test]
fn unvalidated_fields_would_share_keys() {
    assert!(!is_valid_key_field("a:document:b"));
    assert_eq!(doc_key("a:document:b", "c"), doc_key("a", "b:document:c"));
    assert!(!is_valid_key_field("x:document:y:key"));
    assert_eq!(user_key("x:document:y"), doc_key("x", "y:key"));
}

#[test]
fn key_derivation_exact_texts() {
    assert_eq!(user_key(""), "user::key");
    assert_eq!(doc_key("", ""), "user::document:");
    assert_eq!(user_key("\u{e9}"), "user:\u{e9}:key");
}
