//! Integers in decimal: reading one from text, and writing one as text.

use vstd::prelude::*;
use vstd::string::{is_ascii_spec_bytes, StringExecFns, StringSliceAdditionalSpecFns};
use vstd::utf8::is_ascii_chars;

verus! {

/// The byte that writes the plus sign.
const PLUS: u8 = 43;

/// The byte that writes the minus sign.
const MINUS: u8 = 45;

/// The byte that writes the digit zero.
const ZERO: u8 = 48;

/// The byte that writes the digit nine.
const NINE: u8 = 57;

/// The largest magnitude that fits in an `i32`: that of the smallest `i32`.
const MAGNITUDE_LIMIT: i64 = 2147483648;

/// Whether `c` is one of the ten decimal digits.
pub open spec fn is_digit(c: char) -> bool {
    '0' <= c <= '9'
}

/// The number that the digit `c` stands for.
pub open spec fn digit_value(c: char) -> int {
    c as int - '0' as int
}

/// Whether `text` holds decimal digits and nothing else.
pub open spec fn all_digits(text: Seq<char>) -> bool {
    forall|i: int| 0 <= i < text.len() ==> is_digit(#[trigger] text[i])
}

/// The number that a run of digits stands for in base ten; 0 for no digits.
pub open spec fn digits_value(digits: Seq<char>) -> int
    decreases digits.len(),
{
    if digits.len() == 0 {
        0
    } else {
        10 * digits_value(digits.drop_last()) + digit_value(digits.last())
    }
}

/// Whether `text` starts with a plus or a minus sign.
pub open spec fn has_sign(text: Seq<char>) -> bool {
    text.len() > 0 && (text[0] == '+' || text[0] == '-')
}

/// The integer that `text` writes in decimal, if it writes one: an optional
/// sign, then at least one digit, and nothing else.
pub open spec fn decimal(text: Seq<char>) -> Option<int> {
    let digits = if has_sign(text) {
        text.skip(1)
    } else {
        text
    };
    if digits.len() == 0 || !all_digits(digits) {
        None
    } else if text[0] == '-' {
        Some(-digits_value(digits))
    } else {
        Some(digits_value(digits))
    }
}

/// The `i32` that `text` writes in decimal, if it writes one that fits.
pub open spec fn parsed(text: Seq<char>) -> Option<i32> {
    match decimal(text) {
        Some(number) => if i32::MIN <= number <= i32::MAX {
            Some(number as i32)
        } else {
            None
        },
        None => None,
    }
}

/// A run of digits stands for a number that is at least the number its first
/// `n` digits stand for.
pub proof fn lemma_digits_value_grows(digits: Seq<char>, n: int)
    requires
        all_digits(digits),
        0 <= n <= digits.len(),
    ensures
        0 <= digits_value(digits.take(n)) <= digits_value(digits),
    decreases digits.len() - n,
{
    if n == digits.len() {
        assert(digits.take(n) =~= digits);
        lemma_digits_value_not_negative(digits);
    } else {
        let shorter = digits.drop_last();
        assert(shorter.take(n) =~= digits.take(n));
        lemma_digits_value_grows(shorter, n);
    }
}

/// A run of digits never stands for a negative number.
pub proof fn lemma_digits_value_not_negative(digits: Seq<char>)
    requires
        all_digits(digits),
    ensures
        0 <= digits_value(digits),
    decreases digits.len(),
{
    if digits.len() > 0 {
        lemma_digits_value_not_negative(digits.drop_last());
    }
}

/// Text that writes a decimal integer holds ASCII characters only.
pub proof fn lemma_decimal_is_ascii(text: Seq<char>)
    requires
        decimal(text) is Some,
    ensures
        is_ascii_chars(text),
{
    assert forall|i: int| 0 <= i < text.len() implies '\0' <= #[trigger] text[i] <= '\u{7f}' by {
        if has_sign(text) && i > 0 {
            assert(is_digit(text.skip(1)[i - 1]));
        }
    }
}

/// Reads `text` as a decimal `i32`: an optional sign, then digits only.
/// Gives `None` for any other text, and for a number that does not fit.
pub fn parse_i32(text: &str) -> (number: Option<i32>)
    ensures
        number == parsed(text@),
{
    if !text.is_ascii() {
        proof {
            if decimal(text@) is Some {
                lemma_decimal_is_ascii(text@);
            }
        }
        return None;
    }
    let bytes = text.as_bytes();
    let len: usize = bytes.len();
    proof {
        is_ascii_spec_bytes(text);
    }
    if len == 0 {
        return None;
    }
    let negative = bytes[0] == MINUS;
    let start: usize = if bytes[0] == MINUS || bytes[0] == PLUS {
        1
    } else {
        0
    };
    let ghost digits = if has_sign(text@) {
        text@.skip(1)
    } else {
        text@
    };
    let mut total: i64 = 0;
    let mut at: usize = start;
    while at < len
        invariant
            start <= at <= len == text@.len(),
            start == if has_sign(text@) { 1usize } else { 0usize },
            digits == if has_sign(text@) { text@.skip(1) } else { text@ },
            text.is_ascii(),
            bytes@ == text.spec_bytes(),
            all_digits(digits.take(at - start)),
            total == digits_value(digits.take(at - start)),
            0 <= total <= MAGNITUDE_LIMIT,
        decreases len - at,
    {
        proof {
            is_ascii_spec_bytes(text);
        }
        let byte: u8 = bytes[at];
        assert(digits.take(at - start + 1).drop_last() =~= digits.take(at - start));
        if byte < ZERO || byte > NINE {
            return None;
        }
        total = total * 10 + (byte - ZERO) as i64;
        if total > MAGNITUDE_LIMIT {
            proof {
                if all_digits(digits) {
                    lemma_digits_value_grows(digits, at - start + 1);
                }
            }
            return None;
        }
        at = at + 1;
    }
    assert(digits.take(at - start) =~= digits);
    if start == len {
        None
    } else if negative {
        Some((-total) as i32)
    } else if total == MAGNITUDE_LIMIT {
        None
    } else {
        Some(total as i32)
    }
}

/// The character that writes the digit `d`.
pub open spec fn digit_char(d: int) -> char
    recommends
        0 <= d <= 9,
{
    ((d + 48) as u8) as char
}

/// The digits that write `n` in base ten, the most significant first, with
/// no leading zero; the single digit 0 for 0.
pub open spec fn digits_of(n: nat) -> Seq<char>
    decreases n,
{
    if n < 10 {
        seq![digit_char(n as int)]
    } else {
        digits_of(n / 10).push(digit_char((n % 10) as int))
    }
}

/// The text that writes `number` in decimal: a minus sign if it is negative,
/// then the digits of its magnitude.
pub open spec fn written(number: int) -> Seq<char> {
    if number < 0 {
        seq!['-'] + digits_of((-number) as nat)
    } else {
        digits_of(number as nat)
    }
}

/// The digits of a number are digits, at least one of them, and stand for
/// that number.
pub proof fn lemma_digits_of_reads_back(n: nat)
    ensures
        digits_of(n).len() > 0,
        all_digits(digits_of(n)),
        digits_value(digits_of(n)) == n,
    decreases n,
{
    if n < 10 {
        assert(digits_value(digits_of(n).drop_last()) == 0);
    } else {
        lemma_digits_of_reads_back(n / 10);
        assert(digits_of(n).drop_last() =~= digits_of(n / 10));
    }
}

/// What is written reads back: the text that writes a number is a decimal
/// integer, and the integer is that number.
pub proof fn lemma_written_reads_back(number: int)
    ensures
        decimal(written(number)) == Some(number),
        i32::MIN <= number <= i32::MAX ==> parsed(written(number)) == Some(number as i32),
{
    if number < 0 {
        let digits = digits_of((-number) as nat);
        lemma_digits_of_reads_back((-number) as nat);
        assert(written(number).skip(1) =~= digits);
    } else {
        lemma_digits_of_reads_back(number as nat);
    }
}

/// The text of one digit.
fn digit_text(d: u32) -> (text: &'static str)
    requires
        d < 10,
    ensures
        text@ == seq![digit_char(d as int)],
{
    proof {
        reveal_strlit("0");
        reveal_strlit("1");
        reveal_strlit("2");
        reveal_strlit("3");
        reveal_strlit("4");
        reveal_strlit("5");
        reveal_strlit("6");
        reveal_strlit("7");
        reveal_strlit("8");
        reveal_strlit("9");
    }
    match d {
        0 => "0",
        1 => "1",
        2 => "2",
        3 => "3",
        4 => "4",
        5 => "5",
        6 => "6",
        7 => "7",
        8 => "8",
        _ => "9",
    }
}

/// Appends the digits of `magnitude` to `text`.
fn append_digits(text: &mut String, magnitude: u32)
    ensures
        final(text)@ == old(text)@ + digits_of(magnitude as nat),
    decreases magnitude,
{
    if magnitude >= 10 {
        append_digits(text, magnitude / 10);
    }
    text.append(digit_text(magnitude % 10));
}

/// Writes `number` in decimal.
pub fn write_i32(number: i32) -> (text: String)
    ensures
        text@ == written(number as int),
{
    let mut text = String::new();
    if number < 0 {
        text.append("-");
        proof {
            reveal_strlit("-");
        }
        append_digits(&mut text, (-(number as i64)) as u32);
    } else {
        append_digits(&mut text, number as u32);
    }
    text
}

} // verus!
