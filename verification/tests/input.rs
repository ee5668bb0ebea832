use guessing_game::input::read_number;

#[test]
fn read_trims_the_line_ending() {
    assert_eq!(read_number("42\n"), Some(42));
    assert_eq!(read_number("42\r\n"), Some(42));
    assert_eq!(read_number("42"), Some(42));
}

#[test]
fn read_trims_white_space_on_both_sides() {
    assert_eq!(read_number("  17  \n"), Some(17));
    assert_eq!(read_number("\t-5\t"), Some(-5));
    assert_eq!(read_number("\u{2003}8\u{3000}"), Some(8));
}

#[test]
fn read_keeps_white_space_inside() {
    assert_eq!(read_number("1 7\n"), None);
    assert_eq!(read_number("- 7\n"), None);
}

#[test]
fn read_refuses_a_line_without_a_number() {
    assert_eq!(read_number("abc\n"), None);
    assert_eq!(read_number("\n"), None);
    assert_eq!(read_number(""), None);
    assert_eq!(read_number("   "), None);
}

#[test]
fn read_does_not_judge_the_range() {
    assert_eq!(read_number("150\n"), Some(150));
    assert_eq!(read_number("0\n"), Some(0));
    assert_eq!(read_number("-3\n"), Some(-3));
}
