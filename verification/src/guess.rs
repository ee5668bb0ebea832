//! A guess: an integer that is known to lie between 1 and 100.

use vstd::prelude::*;

verus! {

/// The smallest value a guess may hold.
pub const LOWEST: i32 = 1;

/// The largest value a guess may hold.
pub const HIGHEST: i32 = 100;

/// Whether `value` may be held by a [`Guess`].
pub open spec fn in_range(value: int) -> bool {
    LOWEST <= value <= HIGHEST
}

/// A number between [`LOWEST`] and [`HIGHEST`], both included.
///
/// The field is private and every constructor checks the range, so a `Guess`
/// that exists at run time always holds a value in range.
#[derive(Debug)]
pub struct Guess {
    value: i32,
}

/// The reason a number is refused as a guess: it lies outside the range.
#[derive(Clone, Copy, Debug, PartialEq, Eq)]
pub struct OutOfRange {
    /// The number that was refused.
    pub value: i32,
}

impl View for Guess {
    type V = int;

    /// The number that the guess holds.
    closed spec fn view(&self) -> int {
        self.value as int
    }
}

impl Guess {
    #[verifier::type_invariant]
    spec fn holds_a_value_in_range(self) -> bool {
        in_range(self.value as int)
    }

    /// The guess that holds `value`.
    pub closed spec fn spec_new(value: i32) -> Guess {
        Guess { value }
    }

    /// The number that the guess holds, as a machine integer.
    pub closed spec fn spec_value(&self) -> i32 {
        self.value
    }

    /// Makes a guess of a number that is known to be in range.
    #[verifier::when_used_as_spec(spec_new)]
    pub fn new(value: i32) -> (guess: Guess)
        requires
            in_range(value as int),
        ensures
            guess == Guess::spec_new(value),
            guess@ == value,
    {
        Guess { value }
    }

    /// Makes a guess of any number, or says that the number is out of range.
    pub fn try_new(value: i32) -> (result: Result<Guess, OutOfRange>)
        ensures
            match result {
                Ok(guess) => in_range(value as int) && guess == Guess::spec_new(value) && guess@
                    == value,
                Err(refused) => !in_range(value as int) && refused.value == value,
            },
    {
        if value < LOWEST || value > HIGHEST {
            Err(OutOfRange { value })
        } else {
            Ok(Guess::new(value))
        }
    }

    /// The number that the guess holds.
    #[verifier::when_used_as_spec(spec_value)]
    pub fn value(&self) -> (value: i32)
        ensures
            value == self.spec_value(),
            value == self@,
            in_range(value as int),
    {
        proof {
            use_type_invariant(self);
        }
        self.value
    }

    /// Reading a guess gives back the number it was made of: for every
    /// `value` in range, `Guess::new(value).value() == value`.
    pub proof fn lemma_value_of_new(value: i32)
        requires
            in_range(value as int),
        ensures
            Guess::new(value).value() == value,
            Guess::new(value)@ == value,
    {
    }
}

} // verus!
