//! Which origins are allowed.

use re_grpc_server::cors::{allowed_origin_patterns, is_origin_allowed, is_origin_header_allowed};

fn check(origin: &str, extra: &[&str]) -> bool {
    let extra: Vec<String> = extra.iter().map(|pattern| pattern.to_string()).collect();
    is_origin_allowed(origin, &allowed_origin_patterns(&extra))
}

#[test]
fn default_allowed_origins() {
    assert!(check("http://localhost", &[]));
    assert!(check("http://localhost:8080", &[]));
    assert!(check("https://127.0.0.1", &[]));
    assert!(check("https://127.0.0.1:9090", &[]));
    assert!(check("https://rerun.io", &[]));
    assert!(check("https://rerun.io:443", &[]));
}

#[test]
fn default_rejected_origins() {
    assert!(!check("https://evil.com", &[]));
    assert!(!check("https://notlocalhost.com", &[]));
    assert!(!check("https://localhost.evil.com", &[]));
}

#[test]
fn extra_patterns() {
    assert!(check("https://app.example.com", &["https://*.example.com"]));
    assert!(!check("https://evil.com", &["https://*.example.com"]));

    // `?` stands for exactly one character, so it does not make the `s` optional.
    assert!(check("https://example.com", &["http?://example.com"]));
    assert!(!check("http://example.com", &["http?://example.com"]));

    assert!(check("https://example.com:8080", &["https://example.com:*"]));
}

#[test]
fn edge_cases() {
    assert!(!check("", &[]));
    assert!(!check("localhost", &[]));
    assert!(!check("evil.com", &[]));
}

#[test]
fn consecutive_stars_are_one() {
    assert!(check("abc", &["a**c"]));
    assert!(check("ac", &["a**c"]));
    assert!(!check("ab", &["a**c"]));
    assert!(check("", &["*"]));
    assert!(!check("", &["?"]));
    assert!(check("", &[""]));
    assert!(!check("x", &[""]));
    assert!(!check("X", &["x"]));
}

#[test]
fn headers_that_are_not_text_are_refused() {
    let patterns = allowed_origin_patterns(&vec!["*".to_owned()]);
    let check = |bytes: &[u8]| is_origin_header_allowed(&bytes.to_vec(), &patterns);
    assert!(check(b"anything"));
    assert!(check(b""));
    assert!(check(b"\t ~"));
    assert!(!check(b"\x7f"));
    assert!(!check(b"a\nb"));
    assert!(!check("\u{e4}".as_bytes()));
    let patterns = allowed_origin_patterns(&vec![]);
    assert!(is_origin_header_allowed(&b"http://localhost:8080".to_vec(), &patterns));
    assert!(!is_origin_header_allowed(&b"http://example.com".to_vec(), &patterns));
}

#[test]
fn patterns_are_the_default_ones_and_then_the_extra_ones() {
    let patterns = allowed_origin_patterns(&vec!["https://*.example.com".to_owned()]);
    assert_eq!(
        patterns,
        vec![
            "*://localhost",
            "*://localhost:*",
            "*://127.0.0.1",
            "*://127.0.0.1:*",
            "*://rerun.io",
            "*://rerun.io:*",
            "https://*.example.com",
        ]
    );
}
