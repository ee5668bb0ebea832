//! What the player is shown: the lines that open a game, the lines of each
//! reply, and the message of an error that ends the game.

use vstd::prelude::*;
use vstd::string::StringExecFns;
use crate::decimal::{decimal, lemma_written_reads_back, write_i32, written};
use crate::game::{Answer, Reply, State, TurnError};
use crate::guess::in_range;

verus! {

/// The two lines that open a game.
pub const WELCOME: [&'static str; 2] = [
    "Welcome to the guessing game of epic proportions!",
    "Alrighty, what number are you tossing into the ring today?",
];

/// The first line of the reply to the right guess.
pub const VICTORY: &'static str = "Cue the confetti!!";

/// The second line of the reply to the right guess, in three parts: the
/// secret number stands between the first and the second, the count of
/// guesses between the second and the third.
pub const SUMMARY: [&'static str; 3] = [
    "The secret number is indeed ",
    "! You guessed it right with only ",
    " tries! ",
];

/// What is said of a line that holds no number.
pub const NOT_A_NUMBER: &'static str = "guess must be a number";

/// What is said of a number that no guess may hold; the number follows.
pub const OUT_OF_RANGE: &'static str = "Guess value must be between 1 and 100, got ";

/// The line that reports the secret number and the count of guesses.
pub open spec fn summary(secret: int, attempts: int) -> Seq<char> {
    SUMMARY@[0]@ + written(secret) + SUMMARY@[1]@ + written(attempts) + SUMMARY@[2]@
}

impl Answer {
    /// The lines that show the answer: one line for a wrong guess, which is
    /// its message, and two for the right one.
    pub open spec fn lines(self) -> Seq<Seq<char>> {
        match self {
            Answer::TooSmall(message) => seq![message],
            Answer::TooLarge(message) => seq![message],
            Answer::Won { secret, attempts } => seq![VICTORY@, summary(secret, attempts)],
        }
    }
}

impl TurnError {
    /// The text of the message that tells of the error.
    pub open spec fn text(self) -> Seq<char> {
        match self {
            TurnError::NotANumber => NOT_A_NUMBER@,
            TurnError::OutOfRange(number) => OUT_OF_RANGE@ + written(number as int),
        }
    }

    /// The message that tells of the error.
    pub fn message(&self) -> (message: String)
        ensures
            message@ == self.text(),
    {
        match self {
            TurnError::NotANumber => NOT_A_NUMBER.to_owned(),
            TurnError::OutOfRange(number) => {
                let mut message = OUT_OF_RANGE.to_owned();
                message.append(write_i32(*number).as_str());
                message
            },
        }
    }
}

/// Writes the line that reports the secret number and the count of guesses.
pub fn write_summary(secret: i32, attempts: i32) -> (line: String)
    ensures
        line@ == summary(secret as int, attempts as int),
{
    let mut line = SUMMARY[0].to_owned();
    line.append(write_i32(secret).as_str());
    line.append(SUMMARY[1]);
    line.append(write_i32(attempts).as_str());
    line.append(SUMMARY[2]);
    line
}

impl Reply {
    /// The lines that show the reply, in the order in which they are shown.
    pub fn lines(&self) -> (lines: Vec<String>)
        ensures
            lines.deep_view() == self@.lines(),
    {
        let mut lines: Vec<String> = Vec::new();
        match self {
            Reply::TooSmall(message) => {
                lines.push((*message).to_owned());
            },
            Reply::TooLarge(message) => {
                lines.push((*message).to_owned());
            },
            Reply::Won { secret, attempts } => {
                lines.push(VICTORY.to_owned());
                lines.push(write_summary(*secret, *attempts));
            },
        }
        lines
    }
}

/// A wrong guess is answered in exactly one line, the right guess in exactly
/// two.
pub proof fn lemma_lines_of_an_answer(answer: Answer)
    ensures
        answer is Won ==> answer.lines().len() == 2,
        !(answer is Won) ==> answer.lines().len() == 1,
{
}

/// The right guess is shown with the secret number and the count of guesses
/// made, this one included: the second line holds both written in decimal,
/// and what is written there reads back as exactly those two numbers.
pub proof fn lemma_victory_reports_secret_and_attempts(
    state: State,
    number: i32,
    small_index: int,
    large_index: int,
)
    requires
        in_range(number as int),
        number == state.secret,
    ensures
        ({
            let count = state.attempts as int + 1;
            &&& state.outcome(Some(number), small_index, large_index) matches Ok(answer)
                && answer.lines() == seq![VICTORY@, summary(state.secret, count)]
            &&& summary(state.secret, count) == SUMMARY@[0]@ + written(state.secret)
                + SUMMARY@[1]@ + written(count) + SUMMARY@[2]@
            &&& decimal(written(state.secret)) == Some(state.secret)
            &&& decimal(written(count)) == Some(count)
        }),
{
    lemma_written_reads_back(state.secret);
    lemma_written_reads_back(state.attempts as int + 1);
}

} // verus!
