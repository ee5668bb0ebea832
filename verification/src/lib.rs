//! A number-guessing game: a secret number, guesses validated to lie between
//! 1 and 100, and a reply to every guess until the secret is found.
//!
//! - [`guess`]: the validated guess.
//! - [`decimal`]: integers read from text and written as text.
//! - [`input`]: reading a number from a line of input.
//! - [`messages`]: what the game says of a wrong guess.
//! - [`game`]: the game itself, one turn at a time.
//! - [`report`]: the lines that show the player what happened.
//! - [`text`]: a helper on lines of text.
//!
//! The library reads and prints nothing. A program gives it each line of
//! input and shows what comes back.

pub mod decimal;
pub mod game;
pub mod guess;
pub mod input;
pub mod messages;
mod random;
pub mod report;
pub mod text;
