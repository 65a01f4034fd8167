#![allow(non_snake_case)]

use native_utils::reverse_chars;
use native_utils::rust_free_string;
use native_utils::rust_reverseString;

#[test]
fn reverse_null_returns_null() {
    assert!(rust_reverseString(None).is_none());
}

#[test]
fn reverse_empty_returns_owned_empty() {
    let r = rust_reverseString(Some(""));
    assert_eq!(r, Some(String::new()));
}

#[test]
fn reverse_abc() {
    assert_eq!(rust_reverseString(Some("abc")), Some(String::from("cba")));
}

#[test]
fn reverse_palindrome_is_equal() {
    assert_eq!(rust_reverseString(Some("racecar")), Some(String::from("racecar")));
}

#[test]
fn reverse_multibyte_by_character() {
    assert_eq!(reverse_chars("héllo"), String::from("olléh"));
    assert_eq!(reverse_chars("a☃b"), String::from("b☃a"));
}

#[test]
fn reverse_twice_restores_input() {
    let original = "Straße ☃ reversal";
    let once = rust_reverseString(Some(original)).unwrap();
    let twice = rust_reverseString(Some(&once)).unwrap();
    assert_eq!(twice, original);
}

#[test]
fn reverse_chars_direct() {
    assert_eq!(reverse_chars(""), String::new());
    assert_eq!(reverse_chars("ab"), String::from("ba"));
}

#[test]
fn free_null_is_noop() {
    rust_free_string(None);
}

#[test]
fn free_reversed_string() {
    rust_free_string(rust_reverseString(Some("xyz")));
}
