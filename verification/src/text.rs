//! Lines of text: where the first line of a text stops, and what its last
//! character is.

use vstd::prelude::*;
use vstd::std_specs::iter::IteratorSpec;

verus! {

broadcast use vstd::string::group_string_axioms;

/// Where the first line of `text` stops: at its first line feed, or at its
/// end where it holds no line feed.
pub open spec fn first_line_end(text: Seq<char>) -> int
    decreases text.len(),
{
    if text.len() == 0 || text[0] == '\n' {
        0
    } else {
        1 + first_line_end(text.drop_first())
    }
}

/// The first line of `text`, without the line ending. A line ends in a line
/// feed, or in a carriage return and a line feed; a carriage return that no
/// line feed follows belongs to the line. The last line need not end in
/// either.
pub open spec fn first_line(text: Seq<char>) -> Seq<char> {
    let end = first_line_end(text);
    let line = text.take(end);
    if end < text.len() && line.len() > 0 && line.last() == '\r' {
        line.drop_last()
    } else {
        line
    }
}

/// The last item of `items`, if there is one.
pub open spec fn last_of(items: Seq<char>) -> Option<char> {
    if items.len() == 0 {
        None
    } else {
        Some(items.last())
    }
}

/// The first line stops at `end` if no line feed comes before `end`, and
/// `end` is a line feed or the end of the text.
pub proof fn lemma_first_line_end(text: Seq<char>, end: int)
    requires
        0 <= end <= text.len(),
        forall|i: int| 0 <= i < end ==> text[i] != '\n',
        end < text.len() ==> text[end] == '\n',
    ensures
        first_line_end(text) == end,
    decreases end,
{
    if end > 0 {
        lemma_first_line_end(text.drop_first(), end - 1);
    }
}

/// The last character of the first line of `text`; `None` where the text is
/// empty or its first line is.
pub fn last_char_of_first_line(text: &str) -> (found: Option<char>)
    ensures
        found == last_of(first_line(text@)),
{
    let mut chars = text.chars();
    let mut last: Option<char> = None;
    let mut before_last: Option<char> = None;
    let ghost mut seen: int = 0;
    loop
        invariant
            0 <= seen <= text@.len(),
            chars.remaining() == text@.skip(seen),
            forall|i: int| 0 <= i < seen ==> text@[i] != '\n',
            last == last_of(text@.take(seen)),
            seen > 0 ==> before_last == last_of(text@.take(seen - 1)),
        decreases text@.len() - seen,
    {
        match chars.next() {
            None => {
                proof {
                    lemma_first_line_end(text@, seen);
                }
                return last;
            },
            Some(c) => {
                if c == '\n' {
                    proof {
                        lemma_first_line_end(text@, seen);
                    }
                    return if last == Some('\r') {
                        before_last
                    } else {
                        last
                    };
                }
                before_last = last;
                last = Some(c);
                proof {
                    seen = seen + 1;
                }
            },
        }
    }
}

} // verus!
