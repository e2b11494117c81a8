use monoio_gateway::text::{
    push_decimal, same_bytes, same_ignoring_case, same_text, starts_with, text_starts_with,
};

#[test]
fn decimal_of_small_and_large_numbers() {
    let mut s = String::new();
    push_decimal(&mut s, 0);
    assert_eq!(s, "0");
    let mut s = String::from("x");
    push_decimal(&mut s, 8000);
    assert_eq!(s, "x8000");
    let mut s = String::new();
    push_decimal(&mut s, 65535);
    assert_eq!(s, "65535");
    let mut s = String::new();
    push_decimal(&mut s, u64::MAX);
    assert_eq!(s, "18446744073709551615");
    let mut s = String::new();
    push_decimal(&mut s, 10);
    assert_eq!(s, "10");
}

#[test]
fn prefix_is_byte_for_byte() {
    assert!(starts_with(b"/api/v1", b"/api/"));
    assert!(starts_with(b"/api/v1", b""));
    assert!(starts_with(b"/api", b"/api"));
    assert!(!starts_with(b"/ap", b"/api"));
    assert!(!starts_with(b"/API/v1", b"/api/"));
    assert!(text_starts_with("/.well-known/x", "/.well-known"));
    assert!(!text_starts_with("/well-known", "/.well-known"));
}

#[test]
fn names_compare_without_case() {
    assert!(same_ignoring_case(b"Host", b"host"));
    assert!(same_ignoring_case(b"HOST", b"hOsT"));
    assert!(!same_ignoring_case(b"Host", b"Hos"));
    assert!(!same_ignoring_case(b"Host", b"Hast"));
    assert!(!same_ignoring_case(b"[", b"{"));
    assert!(!same_ignoring_case(b"@", b"`"));
}

#[test]
fn texts_and_bytes_compare_exactly() {
    assert!(same_bytes(b"abc", b"abc"));
    assert!(!same_bytes(b"abc", b"abd"));
    assert!(!same_bytes(b"abc", b"ab"));
    assert!(same_text("svc.example", "svc.example"));
    assert!(!same_text("svc.example", "SVC.example"));
    assert!(same_text("", ""));
}
