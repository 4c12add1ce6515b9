//! The character-level utilities and URL normalization.

use dry_dock::rss_service::SyncError;
use dry_dock::text::{contains_str, decimal_string, starts_with_str, str_eq, trim_str};
use dry_dock::url::normalize_feed_url;

#[test]
fn str_eq_distinguishes_strings() {
    assert!(str_eq("abc", "abc"));
    assert!(!str_eq("abc", "abd"));
    assert!(!str_eq("abc", "abcd"));
    assert!(str_eq("", ""));
}

#[test]
fn starts_with_detects_prefixes() {
    assert!(starts_with_str("https://example.com", "https://"));
    assert!(!starts_with_str("http://example.com", "https://"));
    assert!(starts_with_str("anything", ""));
    assert!(!starts_with_str("ab", "abc"));
}

#[test]
fn contains_finds_substrings() {
    assert!(contains_str("the quick brown fox", "quick"));
    assert!(contains_str("the quick brown fox", "fox"));
    assert!(contains_str("the quick brown fox", "the"));
    assert!(!contains_str("the quick brown fox", "wolf"));
    assert!(contains_str("anything", ""));
    assert!(!contains_str("ab", "abc"));
}

#[test]
fn trim_removes_surrounding_whitespace() {
    assert_eq!(trim_str("  hello  "), "hello");
    assert_eq!(trim_str("\t\nhello\r\n"), "hello");
    assert_eq!(trim_str("hello"), "hello");
    assert_eq!(trim_str("   "), "");
    assert_eq!(trim_str(""), "");
    assert_eq!(trim_str(" a b "), "a b");
}

#[test]
fn url_without_scheme_gets_https() {
    let normalized = normalize_feed_url("example.com/rss").unwrap();
    assert_eq!(normalized, "https://example.com/rss");
}

#[test]
fn url_with_scheme_is_kept() {
    assert_eq!(normalize_feed_url("http://example.com/rss").unwrap(), "http://example.com/rss");
    assert_eq!(normalize_feed_url("https://example.com/rss").unwrap(), "https://example.com/rss");
}

#[test]
fn url_is_trimmed_before_normalization() {
    assert_eq!(normalize_feed_url("  example.com/rss \n").unwrap(), "https://example.com/rss");
}

#[test]
fn empty_url_is_rejected() {
    assert!(matches!(normalize_feed_url(""), Err(SyncError::EmptyUrl)));
    assert!(matches!(normalize_feed_url("   \t "), Err(SyncError::EmptyUrl)));
}

#[test]
fn decimal_rendering_is_exact() {
    assert_eq!(decimal_string(0), "0");
    assert_eq!(decimal_string(7), "7");
    assert_eq!(decimal_string(10), "10");
    assert_eq!(decimal_string(305), "305");
    assert_eq!(decimal_string(18446744073709551615), "18446744073709551615");
}
