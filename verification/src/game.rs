//! The game: a secret number, a count of the guesses made so far, and the
//! rule that answers each guess until the secret is found.

use vstd::prelude::*;
use crate::guess::{Guess, in_range};
use crate::decimal::parsed;
use crate::input::{read_number, trimmed};
use crate::messages::{pick, texts, POOL_SIZE, TOO_LARGE, TOO_SMALL};
use crate::random::random_in;

verus! {

/// One more than the largest secret number that [`Game::start`] draws; the
/// smallest is 0.
pub const SECRET_BOUND: usize = 100;

/// How a guess stands to the secret number.
#[derive(Clone, Copy, Debug, PartialEq, Eq)]
pub enum Verdict {
    /// The guess is below the secret number.
    TooSmall,
    /// The guess is above the secret number.
    TooLarge,
    /// The guess is the secret number.
    Correct,
}

/// What the game answers to a guess.
#[derive(Clone, Copy, Debug, PartialEq, Eq)]
pub enum Reply {
    /// The guess was too small; the message comes from [`TOO_SMALL`].
    TooSmall(&'static str),
    /// The guess was too large; the message comes from [`TOO_LARGE`].
    TooLarge(&'static str),
    /// The guess was right, and the game is over.
    Won {
        /// The secret number.
        secret: i32,
        /// How many guesses were made, this one included.
        attempts: i32,
    },
}

/// Why a line of input ends the game without an answer.
#[derive(Clone, Copy, Debug, PartialEq, Eq)]
pub enum TurnError {
    /// The line does not hold a number.
    NotANumber,
    /// The line holds this number, which no guess may hold.
    OutOfRange(i32),
}

/// A reply as contracts speak of it: messages by their text, numbers as
/// mathematical integers.
pub enum Answer {
    /// The guess was too small; the text of the message.
    TooSmall(Seq<char>),
    /// The guess was too large; the text of the message.
    TooLarge(Seq<char>),
    /// The guess was right.
    Won {
        /// The secret number.
        secret: int,
        /// How many guesses were made, this one included.
        attempts: int,
    },
}

/// A game as contracts speak of it.
pub struct State {
    /// The number to be found.
    pub secret: int,
    /// How many guesses were answered so far.
    pub attempts: nat,
    /// Whether the secret was found. Once it is, no more guesses are taken.
    pub over: bool,
}

/// How `guess` stands to `secret`.
pub open spec fn verdict(guess: int, secret: int) -> Verdict {
    if guess < secret {
        Verdict::TooSmall
    } else if guess > secret {
        Verdict::TooLarge
    } else {
        Verdict::Correct
    }
}

impl State {
    /// A game that has just begun.
    pub open spec fn fresh(secret: int) -> State {
        State { secret, attempts: 0, over: false }
    }

    /// Whether the game can take one more guess: the secret is not found yet,
    /// and the count of guesses still fits in an `i32` after one more.
    pub open spec fn awaits_input(self) -> bool {
        !self.over && self.attempts < i32::MAX
    }

    /// The game after `guess` was answered: the guess is counted, and the
    /// game is over if it was right.
    pub open spec fn after(self, guess: int) -> State
        recommends
            !self.over,
    {
        State { secret: self.secret, attempts: self.attempts + 1, over: guess == self.secret }
    }

    /// The answer to `guess`. A wrong guess gets the message that its pool
    /// holds at the index drawn for that pool; the other index is not used.
    pub open spec fn reply_to(self, guess: int, small_index: int, large_index: int) -> Answer {
        match verdict(guess, self.secret) {
            Verdict::TooSmall => Answer::TooSmall(texts(TOO_SMALL)[small_index]),
            Verdict::TooLarge => Answer::TooLarge(texts(TOO_LARGE)[large_index]),
            Verdict::Correct => Answer::Won { secret: self.secret, attempts: self.attempts + 1int },
        }
    }

    /// The game after one turn. `number` is what the line of input was read
    /// as. A line without a number, or with a number out of range, leaves
    /// the game as it was; any other line is a guess, and is answered.
    pub open spec fn step(self, number: Option<i32>) -> State {
        match number {
            Some(n) => if in_range(n as int) {
                self.after(n as int)
            } else {
                self
            },
            None => self,
        }
    }

    /// What the player is told in one turn: the answer to the guess, or why
    /// the line of input is no guess.
    pub open spec fn outcome(self, number: Option<i32>, small_index: int, large_index: int) -> Result<
        Answer,
        TurnError,
    > {
        match number {
            Some(n) => if in_range(n as int) {
                Ok(self.reply_to(n as int, small_index, large_index))
            } else {
                Err(TurnError::OutOfRange(n))
            },
            None => Err(TurnError::NotANumber),
        }
    }

    /// The game after each guess of `guesses` was answered, in order.
    pub open spec fn after_all(self, guesses: Seq<int>) -> State
        decreases guesses.len(),
    {
        if guesses.len() == 0 {
            self
        } else {
            self.after_all(guesses.drop_last()).after(guesses.last())
        }
    }

    /// A wrong guess keeps the game going: it is counted, the secret is not
    /// found, and the player is told one message, taken from the pool for
    /// guesses that are too small if the guess is below the secret number and
    /// from the pool for guesses that are too large if it is above.
    pub proof fn lemma_wrong_guess_continues(
        self,
        number: i32,
        small_index: int,
        large_index: int,
    )
        requires
            in_range(number as int),
            number != self.secret,
            0 <= small_index < POOL_SIZE,
            0 <= large_index < POOL_SIZE,
        ensures
            self.step(Some(number)).attempts == self.attempts + 1,
            self.step(Some(number)).secret == self.secret,
            !self.step(Some(number)).over,
            number < self.secret ==> self.outcome(Some(number), small_index, large_index) == Ok::<
                Answer,
                TurnError,
            >(Answer::TooSmall(texts(TOO_SMALL)[small_index])),
            number > self.secret ==> self.outcome(Some(number), small_index, large_index) == Ok::<
                Answer,
                TurnError,
            >(Answer::TooLarge(texts(TOO_LARGE)[large_index])),
            texts(TOO_SMALL).contains(texts(TOO_SMALL)[small_index]),
            texts(TOO_LARGE).contains(texts(TOO_LARGE)[large_index]),
    {
    }

    /// The right guess ends the game: it is counted, the secret is found, and
    /// the player is told the secret number and the count of guesses made,
    /// this one included.
    pub proof fn lemma_right_guess_ends(self, number: i32, small_index: int, large_index: int)
        requires
            in_range(number as int),
            number == self.secret,
        ensures
            self.step(Some(number)).attempts == self.attempts + 1,
            self.step(Some(number)).secret == self.secret,
            self.step(Some(number)).over,
            !self.step(Some(number)).awaits_input(),
            self.outcome(Some(number), small_index, large_index) == Ok::<Answer, TurnError>(
                Answer::Won { secret: self.secret, attempts: self.attempts + 1int },
            ),
    {
    }

    /// A line that holds no number, or a number out of range, is not counted
    /// and changes nothing.
    pub proof fn lemma_refused_input_changes_nothing(
        self,
        number: Option<i32>,
        small_index: int,
        large_index: int,
    )
        requires
            number matches Some(n) ==> !in_range(n as int),
        ensures
            self.step(number) == self,
            number is None ==> self.outcome(number, small_index, large_index) == Err::<
                Answer,
                TurnError,
            >(TurnError::NotANumber),
            number matches Some(n) ==> self.outcome(number, small_index, large_index) == Err::<
                Answer,
                TurnError,
            >(TurnError::OutOfRange(n)),
    {
    }

    /// The count of guesses starts at 0 and grows by exactly 1 with every
    /// guess answered: after the guesses of `guesses`, a game that has just
    /// begun has counted as many guesses as `guesses` holds, the last one
    /// included, and the game is over if and only if that last one was right.
    pub proof fn lemma_attempts_count_turns(secret: int, guesses: Seq<int>)
        ensures
            State::fresh(secret).attempts == 0,
            State::fresh(secret).after_all(guesses).attempts == guesses.len(),
            State::fresh(secret).after_all(guesses).secret == secret,
            guesses.len() > 0 ==> (State::fresh(secret).after_all(guesses).over <==> guesses.last()
                == secret),
        decreases guesses.len(),
    {
        if guesses.len() > 0 {
            State::lemma_attempts_count_turns(secret, guesses.drop_last());
        }
    }

    /// The game stays open until the right guess is made: after guesses that
    /// are all wrong, a game that was not over is not over.
    pub proof fn lemma_open_until_right_guess(self, guesses: Seq<int>)
        requires
            !self.over,
            forall|i: int| 0 <= i < guesses.len() ==> guesses[i] != self.secret,
        ensures
            !self.after_all(guesses).over,
            self.after_all(guesses).secret == self.secret,
        decreases guesses.len(),
    {
        if guesses.len() > 0 {
            self.lemma_open_until_right_guess(guesses.drop_last());
        }
    }

    /// The count of guesses never goes down: after more guesses it is at
    /// least what it was after fewer.
    pub proof fn lemma_attempts_never_decrease(self, guesses: Seq<int>, fewer: int)
        requires
            0 <= fewer <= guesses.len(),
        ensures
            self.attempts <= self.after_all(guesses.take(fewer)).attempts <= self.after_all(
                guesses,
            ).attempts,
            self.after_all(guesses).attempts == self.attempts + guesses.len(),
        decreases guesses.len(),
    {
        if guesses.len() == 0 {
            // nothing was guessed
        } else if fewer == guesses.len() {
            assert(guesses.take(fewer) =~= guesses);
            self.lemma_attempts_never_decrease(guesses.drop_last(), fewer - 1);
        } else {
            assert(guesses.drop_last().take(fewer) =~= guesses.take(fewer));
            self.lemma_attempts_never_decrease(guesses.drop_last(), fewer);
        }
    }
}

impl View for Reply {
    type V = Answer;

    open spec fn view(&self) -> Answer {
        match *self {
            Reply::TooSmall(message) => Answer::TooSmall(message@),
            Reply::TooLarge(message) => Answer::TooLarge(message@),
            Reply::Won { secret, attempts } => Answer::Won {
                secret: secret as int,
                attempts: attempts as int,
            },
        }
    }
}

/// What a turn returned, with the reply taken by its view.
pub open spec fn viewed(result: Result<Reply, TurnError>) -> Result<Answer, TurnError> {
    match result {
        Ok(reply) => Ok(reply@),
        Err(error) => Err(error),
    }
}

/// A game in progress.
pub struct Game {
    secret: i32,
    attempts: i32,
    over: bool,
}

impl View for Game {
    type V = State;

    closed spec fn view(&self) -> State {
        State { secret: self.secret as int, attempts: self.attempts as nat, over: self.over }
    }
}

impl Game {
    #[verifier::type_invariant]
    spec fn counts_from_zero(self) -> bool {
        self.attempts >= 0
    }

    /// Begins a game with the given secret number.
    pub fn new(secret: i32) -> (game: Game)
        ensures
            game@ == State::fresh(secret as int),
    {
        Game { secret, attempts: 0, over: false }
    }

    /// Begins a game with a secret number drawn at random from 0 up to, but
    /// not including, [`SECRET_BOUND`].
    pub fn start() -> (game: Game)
        ensures
            0 <= game@.secret < SECRET_BOUND,
            game@ == State::fresh(game@.secret),
    {
        let drawn: usize = random_in(0, SECRET_BOUND);
        Game::new(drawn as i32)
    }

    /// The number to be found.
    pub fn secret(&self) -> (secret: i32)
        ensures
            secret == self@.secret,
    {
        self.secret
    }

    /// How many guesses were answered so far.
    pub fn attempts(&self) -> (attempts: i32)
        ensures
            attempts == self@.attempts,
    {
        proof {
            use_type_invariant(self);
        }
        self.attempts
    }

    /// Whether the secret was found.
    pub fn is_over(&self) -> (over: bool)
        ensures
            over == self@.over,
    {
        self.over
    }

    /// Whether the game can take one more guess.
    pub fn awaits_input(&self) -> (ready: bool)
        ensures
            ready == self@.awaits_input(),
    {
        proof {
            use_type_invariant(self);
        }
        !self.over && self.attempts < i32::MAX
    }

    /// How `guess` stands to the secret number.
    pub fn compare(&self, guess: &Guess) -> (outcome: Verdict)
        ensures
            outcome == verdict(guess@, self@.secret),
    {
        let value: i32 = guess.value();
        if value < self.secret {
            Verdict::TooSmall
        } else if value > self.secret {
            Verdict::TooLarge
        } else {
            Verdict::Correct
        }
    }

    /// Answers a guess and counts it. `small_index` and `large_index` are
    /// the draws for this turn, one for each pool of messages.
    pub fn judge(&mut self, guess: Guess, small_index: usize, large_index: usize) -> (reply: Reply)
        requires
            old(self)@.awaits_input(),
            small_index < POOL_SIZE,
            large_index < POOL_SIZE,
        ensures
            final(self)@ == old(self)@.after(guess@),
            reply@ == old(self)@.reply_to(guess@, small_index as int, large_index as int),
    {
        proof {
            use_type_invariant(&*self);
        }
        self.attempts = self.attempts + 1;
        match self.compare(&guess) {
            Verdict::TooSmall => Reply::TooSmall(pick(&TOO_SMALL, small_index)),
            Verdict::TooLarge => Reply::TooLarge(pick(&TOO_LARGE, large_index)),
            Verdict::Correct => {
                self.over = true;
                Reply::Won { secret: self.secret, attempts: self.attempts }
            },
        }
    }

    /// Plays one turn on what a line of input was read as: `None` where it
    /// held no number. Only a number in range is a guess; anything else is
    /// refused, and the game stays as it was.
    pub fn decide(
        &mut self,
        number: Option<i32>,
        small_index: usize,
        large_index: usize,
    ) -> (result: Result<Reply, TurnError>)
        requires
            old(self)@.awaits_input(),
            small_index < POOL_SIZE,
            large_index < POOL_SIZE,
        ensures
            final(self)@ == old(self)@.step(number),
            viewed(result) == old(self)@.outcome(number, small_index as int, large_index as int),
    {
        match number {
            None => Err(TurnError::NotANumber),
            Some(n) => match Guess::try_new(n) {
                Ok(guess) => Ok(self.judge(guess, small_index, large_index)),
                Err(refused) => Err(TurnError::OutOfRange(refused.value)),
            },
        }
    }

    /// Plays one turn on a line of input, with the draws given. The line is
    /// trimmed and read as a decimal number.
    pub fn turn(&mut self, line: &str, small_index: usize, large_index: usize) -> (result: Result<
        Reply,
        TurnError,
    >)
        requires
            old(self)@.awaits_input(),
            small_index < POOL_SIZE,
            large_index < POOL_SIZE,
        ensures
            final(self)@ == old(self)@.step(parsed(trimmed(line@))),
            viewed(result) == old(self)@.outcome(
                parsed(trimmed(line@)),
                small_index as int,
                large_index as int,
            ),
    {
        let number = read_number(line);
        self.decide(number, small_index, large_index)
    }

    /// Plays one turn on a line of input, with an index drawn at random for
    /// each pool of messages. The draws decide which message answers a wrong
    /// guess, and nothing else.
    pub fn respond(&mut self, line: &str) -> (result: Result<Reply, TurnError>)
        requires
            old(self)@.awaits_input(),
        ensures
            final(self)@ == old(self)@.step(parsed(trimmed(line@))),
            exists|small_index: int, large_index: int|
                0 <= small_index < POOL_SIZE && 0 <= large_index < POOL_SIZE && viewed(result)
                    == #[trigger] old(self)@.outcome(
                    parsed(trimmed(line@)),
                    small_index,
                    large_index,
                ),
    {
        let small_index: usize = random_in(0, POOL_SIZE);
        let large_index: usize = random_in(0, POOL_SIZE);
        let ghost before = self@;
        let result = self.turn(line, small_index, large_index);
        assert(viewed(result) == before.outcome(
            parsed(trimmed(line@)),
            small_index as int,
            large_index as int,
        ));
        result
    }
}

} // verus!
