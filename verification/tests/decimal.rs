use guessing_game::decimal::{parse_i32, write_i32};

#[test]
fn parse_reads_plain_digits() {
    assert_eq!(parse_i32("0"), Some(0));
    assert_eq!(parse_i32("7"), Some(7));
    assert_eq!(parse_i32("42"), Some(42));
    assert_eq!(parse_i32("150"), Some(150));
}

#[test]
fn parse_reads_a_sign() {
    assert_eq!(parse_i32("+7"), Some(7));
    assert_eq!(parse_i32("-7"), Some(-7));
    assert_eq!(parse_i32("-0"), Some(0));
    assert_eq!(parse_i32("+0"), Some(0));
}

#[test]
fn parse_reads_leading_zeros() {
    assert_eq!(parse_i32("007"), Some(7));
    assert_eq!(parse_i32("-00012"), Some(-12));
    assert_eq!(parse_i32("000000000000000000000000000001"), Some(1));
}

#[test]
fn parse_reads_the_largest_and_the_smallest() {
    assert_eq!(parse_i32("2147483647"), Some(i32::MAX));
    assert_eq!(parse_i32("+2147483647"), Some(i32::MAX));
    assert_eq!(parse_i32("-2147483648"), Some(i32::MIN));
}

#[test]
fn parse_refuses_what_does_not_fit() {
    assert_eq!(parse_i32("2147483648"), None);
    assert_eq!(parse_i32("-2147483649"), None);
    assert_eq!(parse_i32("21474836470"), None);
    assert_eq!(parse_i32("99999999999999999999999999"), None);
    assert_eq!(parse_i32("-99999999999999999999999999"), None);
}

#[test]
fn parse_refuses_text_without_digits() {
    assert_eq!(parse_i32(""), None);
    assert_eq!(parse_i32("+"), None);
    assert_eq!(parse_i32("-"), None);
    assert_eq!(parse_i32("abc"), None);
}

#[test]
fn parse_refuses_anything_beside_the_digits() {
    assert_eq!(parse_i32("12a"), None);
    assert_eq!(parse_i32("a12"), None);
    assert_eq!(parse_i32("1 2"), None);
    assert_eq!(parse_i32(" 12"), None);
    assert_eq!(parse_i32("12 "), None);
    assert_eq!(parse_i32("12\n"), None);
    assert_eq!(parse_i32("--5"), None);
    assert_eq!(parse_i32("+-5"), None);
    assert_eq!(parse_i32("5-"), None);
    assert_eq!(parse_i32("1_000"), None);
    assert_eq!(parse_i32("1.5"), None);
    assert_eq!(parse_i32("0x10"), None);
}

#[test]
fn parse_refuses_digits_outside_ascii() {
    assert_eq!(parse_i32("\u{0661}\u{0662}"), None);
    assert_eq!(parse_i32("\u{ff11}"), None);
    assert_eq!(parse_i32("4\u{00e9}"), None);
    assert_eq!(parse_i32("\u{2212}5"), None);
}

#[test]
fn parse_agrees_with_the_standard_library() {
    let samples = [
        "", "0", "1", "9", "10", "99", "100", "101", "150", "-1", "+1", "-", "+", "++1", "abc",
        "1a", "a1", " 1", "1 ", "2147483647", "2147483648", "2147483650", "-2147483648",
        "-2147483649", "00000000002147483647", "-00000000002147483648", "4294967296",
        "18446744073709551616", "1e3", "0b1", "\u{0663}", "1\u{00a0}", "/", ":", "0/", "0:",
    ];
    for sample in samples {
        assert_eq!(parse_i32(sample), sample.parse::<i32>().ok(), "on {:?}", sample);
    }
}

#[test]
fn parse_agrees_with_the_standard_library_on_every_small_number() {
    for number in -1100..=1100 {
        let written = format!("{}", number);
        assert_eq!(parse_i32(&written), Some(number));
        assert_eq!(parse_i32(&written), written.parse::<i32>().ok());
    }
}

#[test]
fn write_gives_plain_digits() {
    assert_eq!(write_i32(0), "0");
    assert_eq!(write_i32(7), "7");
    assert_eq!(write_i32(10), "10");
    assert_eq!(write_i32(42), "42");
    assert_eq!(write_i32(100), "100");
    assert_eq!(write_i32(1000000), "1000000");
}

#[test]
fn write_gives_a_minus_sign_to_negative_numbers() {
    assert_eq!(write_i32(-1), "-1");
    assert_eq!(write_i32(-42), "-42");
    assert_eq!(write_i32(-100), "-100");
}

#[test]
fn write_gives_the_largest_and_the_smallest() {
    assert_eq!(write_i32(i32::MAX), "2147483647");
    assert_eq!(write_i32(i32::MIN), "-2147483648");
}

#[test]
fn write_agrees_with_the_standard_library() {
    for number in -1100..=1100 {
        assert_eq!(write_i32(number), format!("{}", number));
    }
    for number in [i32::MIN, i32::MIN + 1, -1000000007, 999999999, 1000000000, i32::MAX - 1, i32::MAX] {
        assert_eq!(write_i32(number), format!("{}", number));
    }
}

#[test]
fn what_is_written_reads_back() {
    for number in -1100..=1100 {
        assert_eq!(parse_i32(&write_i32(number)), Some(number));
    }
    for number in [i32::MIN, i32::MIN + 1, -1000000007, 999999999, 1000000000, i32::MAX - 1, i32::MAX] {
        assert_eq!(parse_i32(&write_i32(number)), Some(number));
    }
}
