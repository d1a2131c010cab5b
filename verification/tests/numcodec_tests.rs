use searchcode::numcodec::{u64_to_dec_string, parse_u64, u64_to_be_bytes, be_bytes_to_u64, bytes_eq};

#[test]
fn dec_string_exact_values() {
    assert_eq!(u64_to_dec_string(0), "0");
    assert_eq!(u64_to_dec_string(7), "7");
    assert_eq!(u64_to_dec_string(42), "42");
    assert_eq!(u64_to_dec_string(1000), "1000");
    assert_eq!(u64_to_dec_string(u64::MAX), "18446744073709551615");
}

#[test]
fn parse_exact_values() {
    assert_eq!(parse_u64("0"), Some(0));
    assert_eq!(parse_u64("42"), Some(42));
    assert_eq!(parse_u64("007"), Some(7));
    assert_eq!(parse_u64("18446744073709551615"), Some(u64::MAX));
}

#[test]
fn parse_rejects_bad_input() {
    assert_eq!(parse_u64(""), None);
    assert_eq!(parse_u64("4a2"), None);
    assert_eq!(parse_u64("-1"), None);
    assert_eq!(parse_u64("18446744073709551616"), None);
}

#[test]
fn dec_roundtrip_values() {
    for n in [0u64, 1, 9, 10, 99, 100, 123456789, u64::MAX] {
        assert_eq!(parse_u64(&u64_to_dec_string(n)), Some(n));
    }
}

#[test]
fn be_bytes_exact() {
    assert_eq!(u64_to_be_bytes(0), vec![0u8; 8]);
    assert_eq!(u64_to_be_bytes(1), vec![0, 0, 0, 0, 0, 0, 0, 1]);
    assert_eq!(u64_to_be_bytes(0x0102030405060708), vec![1, 2, 3, 4, 5, 6, 7, 8]);
}

#[test]
fn be_bytes_roundtrip() {
    for n in [0u64, 1, 255, 256, 0xdead_beef, u64::MAX] {
        assert_eq!(be_bytes_to_u64(&u64_to_be_bytes(n)), n);
    }
}

#[test]
fn bytes_eq_basics() {
    assert!(bytes_eq(&vec![1, 2, 3], &vec![1, 2, 3]));
    assert!(!bytes_eq(&vec![1, 2, 3], &vec![1, 2, 4]));
    assert!(!bytes_eq(&vec![1, 2], &vec![1, 2, 3]));
    assert!(bytes_eq(&Vec::new(), &Vec::new()));
}
