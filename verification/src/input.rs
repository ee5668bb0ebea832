//! Reading a number from a line of input: the line is trimmed, and what is
//! left must be a decimal integer that fits in an `i32`.

use vstd::prelude::*;
use crate::decimal::{parse_i32, parsed};

verus! {

/// The text that `str::trim` leaves of `text`: `text` without the white space
/// at its start and at its end.
pub uninterp spec fn trimmed(text: Seq<char>) -> Seq<char>;

/// Calls `str::trim`.
///
/// Not proved: the result is given the name [`trimmed`], and nothing more is
/// said of it. Which characters count as white space is decided by `std`.
#[verifier::external_body]
fn trim<'a>(text: &'a str) -> (inner: &'a str)
    ensures
        inner@ == trimmed(text@),
{
    text.trim()
}

/// Reads the number that a line of input holds: the line is trimmed, and the
/// rest is read as [`parse_i32`] reads it.
pub fn read_number(line: &str) -> (number: Option<i32>)
    ensures
        number == parsed(trimmed(line@)),
{
    parse_i32(trim(line))
}

} // verus!
