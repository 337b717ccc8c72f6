use icelake::decimal::{decimal_bytes, decimal_string, parse_version};

#[test]
fn parse_version_reads_plain_digits() {
    assert_eq!(parse_version(b"2"), Some(2));
    assert_eq!(parse_version(b"0"), Some(0));
    assert_eq!(parse_version(b"17"), Some(17));
    assert_eq!(parse_version(b"2147483647"), Some(i32::MAX));
}

#[test]
fn parse_version_accepts_sign_and_leading_zeros() {
    assert_eq!(parse_version(b"+2"), Some(2));
    assert_eq!(parse_version(b"-0"), Some(0));
    assert_eq!(parse_version(b"007"), Some(7));
    assert_eq!(parse_version(b"00000000000000000000000000000000012"), Some(12));
}

#[test]
fn parse_version_refuses_negative_numbers() {
    assert_eq!(parse_version(b"-1"), None);
    assert_eq!(parse_version(b"-2147483648"), None);
}

#[test]
fn parse_version_refuses_what_does_not_fit() {
    assert_eq!(parse_version(b"2147483648"), None);
    assert_eq!(parse_version(b"99999999999999999999999999999999"), None);
    assert_eq!(parse_version(b"-99999999999999999999999999999999"), None);
}

#[test]
fn parse_version_refuses_what_is_no_number() {
    assert_eq!(parse_version(b""), None);
    assert_eq!(parse_version(b"+"), None);
    assert_eq!(parse_version(b"-"), None);
    assert_eq!(parse_version(b"2\n"), None);
    assert_eq!(parse_version(b" 2"), None);
    assert_eq!(parse_version(b"2a"), None);
    assert_eq!(parse_version(b"++2"), None);
    assert_eq!(parse_version(b"1.5"), None);
    assert_eq!(parse_version(&[0x32, 0xff]), None);
    assert_eq!(parse_version(&[0xc3, 0x28]), None);
}

#[test]
fn decimal_bytes_writes_unpadded_digits() {
    assert_eq!(decimal_bytes(0), b"0".to_vec());
    assert_eq!(decimal_bytes(2), b"2".to_vec());
    assert_eq!(decimal_bytes(10), b"10".to_vec());
    assert_eq!(decimal_bytes(1686911671713), b"1686911671713".to_vec());
    assert_eq!(decimal_bytes(-5), b"-5".to_vec());
    assert_eq!(decimal_bytes(i64::MAX), b"9223372036854775807".to_vec());
    assert_eq!(decimal_bytes(i64::MIN), b"-9223372036854775808".to_vec());
}

#[test]
fn decimal_string_agrees_with_the_standard_notation() {
    for n in [0i64, 1, 9, 10, 99, 100, 12345, -1, -10, -987654321, i64::MAX, i64::MIN] {
        assert_eq!(decimal_string(n), format!("{}", n));
    }
}

#[test]
fn written_versions_read_back() {
    for n in [0i32, 1, 2, 9, 10, 11, 99, 100, 101, 65535, 1_000_000, i32::MAX - 1, i32::MAX] {
        assert_eq!(parse_version(&decimal_bytes(n as i64)), Some(n));
    }
}
