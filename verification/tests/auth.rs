use axum::http::{HeaderMap, HeaderValue};
use music_worker::auth::{authorized, credentials_match};

fn headers_with(value: &'static str) -> HeaderMap {
    let mut headers = HeaderMap::new();
    headers.insert("authorization", HeaderValue::from_static(value));
    headers
}

#[test]
fn bearer_secret_is_authorized() {
    assert!(authorized(&headers_with("Bearer s3cret"), "s3cret"));
}

#[test]
fn missing_header_is_not_authorized() {
    assert!(!authorized(&HeaderMap::new(), "s3cret"));
}

#[test]
fn wrong_secret_is_not_authorized() {
    assert!(!authorized(&headers_with("Bearer other"), "s3cret"));
    assert!(!authorized(&headers_with("Bearer s3cret "), "s3cret"));
    assert!(!authorized(&headers_with("Bearer s3cre"), "s3cret"));
}

#[test]
fn scheme_is_case_sensitive() {
    assert!(!authorized(&headers_with("bearer s3cret"), "s3cret"));
    assert!(!authorized(&headers_with("s3cret"), "s3cret"));
}

#[test]
fn header_name_is_case_insensitive() {
    let mut headers = HeaderMap::new();
    headers.insert("Authorization", HeaderValue::from_static("Bearer abc"));
    assert!(authorized(&headers, "abc"));
}

#[test]
fn only_first_value_counts() {
    let mut headers = HeaderMap::new();
    headers.append("authorization", HeaderValue::from_static("Bearer first"));
    headers.append("authorization", HeaderValue::from_static("Bearer second"));
    assert!(authorized(&headers, "first"));
    assert!(!authorized(&headers, "second"));
}

#[test]
fn non_text_value_is_not_authorized() {
    let mut headers = HeaderMap::new();
    headers.insert("authorization", HeaderValue::from_bytes(b"Bearer \xc3\xa9").unwrap());
    assert!(!authorized(&headers, "é"));
}

#[test]
fn other_headers_do_not_authorize() {
    let mut headers = HeaderMap::new();
    headers.insert("x-authorization", HeaderValue::from_static("Bearer abc"));
    assert!(!authorized(&headers, "abc"));
}

#[test]
fn credentials_match_compares_exactly() {
    assert!(credentials_match(b"Bearer abc", "abc"));
    assert!(credentials_match(b"Bearer ", ""));
    assert!(credentials_match(b"Bearer a\tb", "a\tb"));
    assert!(!credentials_match(b"Bearer", ""));
    assert!(!credentials_match(b"Bearer abc\x7f", "abc\x7f"));
    assert!(!credentials_match(b"Bearer \xe9", "\u{e9}"));
    assert!(!credentials_match(b"Basic abc", "abc"));
}
