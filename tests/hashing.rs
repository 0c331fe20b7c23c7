use stream_mux::hashing::{encode_hex, hash_url};
use stream_mux::text::{contains_text, decimal_text, join_path};

#[test]
fn hex_is_upper_case_two_digits_per_byte() {
    assert_eq!(encode_hex(&[0x00, 0xab, 0x1f, 0xff]), "00AB1FFF");
    assert_eq!(encode_hex(&[]), "");
}

#[test]
fn url_hash_is_sha256_hex() {
    let h = hash_url("https://example.com/watch?v=abc");
    assert_eq!(h.0, "361E09572752FC90F6D3F74DF2BC2B08F1EEA86417B580EB3232DC0BC8941784");
}

#[test]
fn decimal_digits() {
    assert_eq!(decimal_text(0), "0");
    assert_eq!(decimal_text(9), "9");
    assert_eq!(decimal_text(10), "10");
    assert_eq!(decimal_text(4294967295), "4294967295");
}

#[test]
fn infix_search() {
    assert!(contains_text("https://i/x_webm.png", "webm"));
    assert!(!contains_text("https://i/x_web.png", "webm"));
    assert!(contains_text("abc", ""));
    assert!(!contains_text("ab", "abc"));
    assert!(contains_text("héwebm", "webm"));
}

#[test]
fn path_joining() {
    assert_eq!(join_path("/a", "b"), "/a/b");
    assert_eq!(join_path("/a/", "b"), "/a/b");
    assert_eq!(join_path("", "b"), "b");
}
