use proxylea::bytes::{bytes_eq, trim_leading_zeros};

#[test]
fn equal_bytes_are_equal() {
    assert!(bytes_eq(b"abc", b"abc"));
    assert!(bytes_eq(b"", b""));
}

#[test]
fn different_bytes_are_not_equal() {
    assert!(!bytes_eq(b"abc", b"abd"));
    assert!(!bytes_eq(b"abc", b"ab"));
    assert!(!bytes_eq(b"", b"a"));
}

#[test]
fn leading_zeros_are_trimmed() {
    assert_eq!(trim_leading_zeros(&[0, 0, 1, 0, 2]), vec![1, 0, 2]);
    assert_eq!(trim_leading_zeros(&[0x12, 0x00, 0x34]), vec![0x12, 0x00, 0x34]);
}

#[test]
fn zero_has_no_magnitude_bytes() {
    assert_eq!(trim_leading_zeros(&[0, 0, 0]), Vec::<u8>::new());
    assert_eq!(trim_leading_zeros(&[]), Vec::<u8>::new());
}
