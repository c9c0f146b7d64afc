use jy::text::{text_bytes, to_str};

#[test]
fn text_ends_at_the_first_zero() {
    assert_eq!(text_bytes(b"abc\0def\0"), b"abc".to_vec());
    assert_eq!(text_bytes(b"abc"), b"abc".to_vec());
    assert_eq!(text_bytes(b"\0abc"), Vec::<u8>::new());
    assert_eq!(text_bytes(b""), Vec::<u8>::new());
    assert_eq!(text_bytes(&[0xFF, 0xFE, 0, 1]), vec![0xFF, 0xFE]);
}

#[test]
fn text_as_a_string() {
    assert_eq!(to_str(b"abc\0def"), Some(String::from("abc")));
    assert_eq!(to_str(b""), Some(String::new()));
    assert_eq!(to_str("\u{91d1}\u{5eb8}\0".as_bytes()), Some(String::from("\u{91d1}\u{5eb8}")));
    assert_eq!(to_str(&[0xFF, 0]), None);
    assert_eq!(to_str(&[0xE9, 0x87, 0]), None);
    assert_eq!(to_str(&[b'a', 0, 0xFF]), Some(String::from("a")));
}
