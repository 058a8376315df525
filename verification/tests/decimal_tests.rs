use crash_helper_client::decimal::{parse_dec, u32_to_dec};

#[test]
fn renders_zero() {
    assert_eq!(u32_to_dec(0), b"0".to_vec());
}

#[test]
fn renders_single_digit() {
    assert_eq!(u32_to_dec(7), b"7".to_vec());
}

#[test]
fn renders_round_number() {
    assert_eq!(u32_to_dec(4200), b"4200".to_vec());
}

#[test]
fn renders_largest_value() {
    assert_eq!(u32_to_dec(u32::MAX), b"4294967295".to_vec());
}

#[test]
fn parses_what_was_rendered() {
    for n in [0u32, 1, 9, 10, 99, 100, 65535, 1000000, u32::MAX] {
        assert_eq!(parse_dec(&u32_to_dec(n)), Some(n));
    }
}

#[test]
fn parse_rejects_empty_input() {
    assert_eq!(parse_dec(&Vec::new()), None);
}

#[test]
fn parse_rejects_non_digits() {
    assert_eq!(parse_dec(&b"12a".to_vec()), None);
    assert_eq!(parse_dec(&b"-5".to_vec()), None);
    assert_eq!(parse_dec(&b" 5".to_vec()), None);
}

#[test]
fn parse_rejects_overflow() {
    assert_eq!(parse_dec(&b"4294967296".to_vec()), None);
    assert_eq!(parse_dec(&b"99999999999999999999".to_vec()), None);
}

#[test]
fn parse_accepts_leading_zeros() {
    assert_eq!(parse_dec(&b"007".to_vec()), Some(7));
}
