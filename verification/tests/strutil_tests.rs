use guest_storage::strutil::{contains_sub, find_eq, split_key_value, str_eq};

#[test]
fn string_equality_is_by_characters() {
    assert!(str_eq("confidential_ephemeral", "confidential_ephemeral"));
    assert!(!str_eq("confidential_ephemeral", "confidential_persistent"));
    assert!(!str_eq("a", "ab"));
    assert!(str_eq("", ""));
}

#[test]
fn substring_containment() {
    assert!(contains_sub("ISPRODUCTION=true", "ISPRODUCTION"));
    assert!(contains_sub("MY_ISPRODUCTION_FLAG=x", "ISPRODUCTION"));
    assert!(!contains_sub("ANOTHERENV=TEST", "ISPRODUCTION"));
    assert!(contains_sub("anything", ""));
    assert!(!contains_sub("", "x"));
}

#[test]
fn splitting_at_the_first_equals_sign() {
    let (k, v) = split_key_value("KEY=VALUE");
    assert_eq!(k, "KEY");
    assert_eq!(v, Some("VALUE".to_string()));

    let (k, v) = split_key_value("KEY=A=B");
    assert_eq!(k, "KEY");
    assert_eq!(v, Some("A=B".to_string()));

    let (k, v) = split_key_value("NOVALUE");
    assert_eq!(k, "NOVALUE");
    assert_eq!(v, None);

    let (k, v) = split_key_value("=x");
    assert_eq!(k, "");
    assert_eq!(v, Some("x".to_string()));
}

#[test]
fn first_equals_index() {
    assert_eq!(find_eq("a=b"), 1);
    assert_eq!(find_eq("abc"), 3);
    assert_eq!(find_eq("=abc"), 0);
}
