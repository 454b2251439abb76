use flaky::decimal::parse_unsigned;

#[test]
fn reads_plain_digits() {
    assert_eq!(parse_unsigned(b"0", u64::MAX), Some(0));
    assert_eq!(parse_unsigned(b"7", u64::MAX), Some(7));
    assert_eq!(parse_unsigned(b"150", u64::MAX), Some(150));
    assert_eq!(parse_unsigned(b"1000", u64::MAX), Some(1000));
    assert_eq!(parse_unsigned(b"1234567890", u64::MAX), Some(1_234_567_890));
}

#[test]
fn leading_zeros_change_nothing() {
    assert_eq!(parse_unsigned(b"007", u64::MAX), Some(7));
    assert_eq!(parse_unsigned(b"0000000000000000000000000000000042", 100), Some(42));
    assert_eq!(parse_unsigned(b"000", 0), Some(0));
}

#[test]
fn a_leading_plus_sign_is_taken() {
    assert_eq!(parse_unsigned(b"+5", u64::MAX), Some(5));
    assert_eq!(parse_unsigned(b"+0", u64::MAX), Some(0));
    assert_eq!(parse_unsigned(b"+0100", u64::MAX), Some(100));
}

#[test]
fn the_empty_text_and_a_lone_sign_are_no_number() {
    assert_eq!(parse_unsigned(b"", u64::MAX), None);
    assert_eq!(parse_unsigned(b"+", u64::MAX), None);
}

#[test]
fn a_second_sign_or_a_minus_sign_is_no_digit() {
    assert_eq!(parse_unsigned(b"++5", u64::MAX), None);
    assert_eq!(parse_unsigned(b"-5", u64::MAX), None);
    assert_eq!(parse_unsigned(b"-0", u64::MAX), None);
    assert_eq!(parse_unsigned(b"5+", u64::MAX), None);
}

#[test]
fn anything_but_digits_is_refused() {
    assert_eq!(parse_unsigned(b"abc", u64::MAX), None);
    assert_eq!(parse_unsigned(b"12a", u64::MAX), None);
    assert_eq!(parse_unsigned(b"a12", u64::MAX), None);
    assert_eq!(parse_unsigned(b" 12", u64::MAX), None);
    assert_eq!(parse_unsigned(b"12 ", u64::MAX), None);
    assert_eq!(parse_unsigned(b"1_000", u64::MAX), None);
    assert_eq!(parse_unsigned(b"1.5", u64::MAX), None);
    assert_eq!(parse_unsigned(b"0x10", u64::MAX), None);
    assert_eq!(parse_unsigned(b"/", u64::MAX), None);
    assert_eq!(parse_unsigned(b":", u64::MAX), None);
    assert_eq!(parse_unsigned(&[0x31, 0xff], u64::MAX), None);
}

#[test]
fn the_limit_is_inclusive() {
    assert_eq!(parse_unsigned(b"1000", 1000), Some(1000));
    assert_eq!(parse_unsigned(b"1001", 1000), None);
    assert_eq!(parse_unsigned(b"9", 9), Some(9));
    assert_eq!(parse_unsigned(b"10", 9), None);
    assert_eq!(parse_unsigned(b"0", 0), Some(0));
    assert_eq!(parse_unsigned(b"1", 0), None);
}

#[test]
fn the_widest_numbers_are_read_and_the_next_ones_refused() {
    assert_eq!(parse_unsigned(b"4294967295", 0xffff_ffff), Some(4_294_967_295));
    assert_eq!(parse_unsigned(b"4294967296", 0xffff_ffff), None);
    assert_eq!(parse_unsigned(b"18446744073709551615", u64::MAX), Some(u64::MAX));
    assert_eq!(parse_unsigned(b"18446744073709551616", u64::MAX), None);
    assert_eq!(parse_unsigned(b"18446744073709551620", u64::MAX), None);
    assert_eq!(parse_unsigned(b"99999999999999999999", u64::MAX), None);
    assert_eq!(parse_unsigned(b"184467440737095516150", u64::MAX), None);
}

#[test]
fn a_number_above_the_limit_is_refused_whatever_follows() {
    assert_eq!(parse_unsigned(b"99999999999999999999x", u64::MAX), None);
    assert_eq!(parse_unsigned(b"2000x", 1000), None);
}

#[test]
fn agrees_with_the_standard_parser_on_every_small_number() {
    for n in 0u64..=2000 {
        let text = format!("{}", n);
        assert_eq!(parse_unsigned(text.as_bytes(), u64::MAX), Some(n));
        assert_eq!(parse_unsigned(text.as_bytes(), 1000), if n <= 1000 { Some(n) } else { None });
    }
}
