use miniquad::text::{find_nul, read_log, reject_nul};

#[test]
fn text_without_zero_bytes_passes() {
    assert_eq!(find_nul("void main() {}"), None);
    assert_eq!(find_nul(""), None);
    assert_eq!(find_nul("\u{e9}\u{4e2d}\u{1f600}"), None);
    assert!(reject_nul("void main() {}").is_ok());
}

#[test]
fn the_first_zero_byte_is_reported() {
    assert_eq!(find_nul("a\0b\0"), Some(1));
    assert_eq!(find_nul("\u{e9}\0"), Some(2));
    let error = reject_nul("ab\0c").unwrap_err();
    assert_eq!(error.position, 2);
    assert_eq!(error.bytes, vec![b'a', b'b', 0, b'c']);
}

#[test]
fn a_log_is_read_without_its_last_byte() {
    assert_eq!(read_log(&b"no good\0\0".to_vec(), 8), "no good");
    assert_eq!(read_log(&b"no good\0".to_vec(), 7), "no goo");
    assert_eq!(read_log(&vec![0], 1), "");
    assert_eq!(read_log(&vec![], 1), "");
}

#[test]
fn invalid_bytes_of_a_log_are_replaced() {
    assert_eq!(read_log(&vec![b'o', 0xff, b'k', 0, 0], 4), "o\u{fffd}k");
    assert_eq!(read_log(&vec![0xe2, 0x82, 0xac, 0, 0], 4), "\u{20ac}");
}
