use guessing_game::guess::{Guess, OutOfRange, HIGHEST, LOWEST};

#[test]
fn range_is_one_to_one_hundred() {
    assert_eq!(LOWEST, 1);
    assert_eq!(HIGHEST, 100);
}

#[test]
fn new_keeps_every_value_in_range() {
    for value in LOWEST..=HIGHEST {
        assert_eq!(Guess::new(value).value(), value);
    }
}

#[test]
fn new_keeps_the_bounds() {
    assert_eq!(Guess::new(1).value(), 1);
    assert_eq!(Guess::new(100).value(), 100);
}

#[test]
fn try_new_accepts_every_value_in_range() {
    for value in LOWEST..=HIGHEST {
        match Guess::try_new(value) {
            Ok(guess) => assert_eq!(guess.value(), value),
            Err(refused) => panic!("{} was refused: {:?}", value, refused),
        }
    }
}

#[test]
fn try_new_refuses_zero() {
    assert_eq!(Guess::try_new(0).unwrap_err(), OutOfRange { value: 0 });
}

#[test]
fn try_new_refuses_one_hundred_and_one() {
    assert_eq!(Guess::try_new(101).unwrap_err(), OutOfRange { value: 101 });
}

#[test]
fn try_new_refuses_negative_numbers() {
    assert_eq!(Guess::try_new(-1).unwrap_err(), OutOfRange { value: -1 });
    assert_eq!(Guess::try_new(-42).unwrap_err(), OutOfRange { value: -42 });
}

#[test]
fn try_new_refuses_the_machine_limits() {
    assert_eq!(Guess::try_new(i32::MIN).unwrap_err(), OutOfRange { value: i32::MIN });
    assert_eq!(Guess::try_new(i32::MAX).unwrap_err(), OutOfRange { value: i32::MAX });
}

#[test]
fn try_new_refuses_every_value_near_the_range_but_outside() {
    for value in -200..=300 {
        let result = Guess::try_new(value);
        if value < 1 || value > 100 {
            assert_eq!(result.unwrap_err().value, value);
        } else {
            assert_eq!(result.unwrap().value(), value);
        }
    }
}
