use message_index::text::{contains_str, starts_with_str};

#[test]
fn substring_search_finds_patterns_anywhere() {
    assert!(contains_str("https://example.com", "https://"));
    assert!(contains_str("ends with http://", "http://"));
    assert!(contains_str("a", ""));
    assert!(contains_str("", ""));
    assert!(!contains_str("", "a"));
    assert!(!contains_str("htt p://", "http://"));
    assert!(!contains_str("HTTP://", "http://"));
    assert!(contains_str("xxhttp://yy", "http://"));
}

#[test]
fn prefix_check_is_anchored() {
    assert!(starts_with_str("image/png", "image"));
    assert!(starts_with_str("image", "image"));
    assert!(!starts_with_str("imag", "image"));
    assert!(!starts_with_str("an image/png", "image"));
    assert!(starts_with_str("anything", ""));
}

#[test]
fn multibyte_characters_do_not_confuse_the_search() {
    assert!(contains_str("héllo http://x", "http://"));
    assert!(!contains_str("héllo", "http://"));
    assert!(starts_with_str("ünïcode", "ünï"));
}
