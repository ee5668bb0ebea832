//! The replies to a wrong guess: one pool of messages for a guess that is too
//! small, one for a guess that is too large.

use vstd::prelude::*;
use crate::random::random_in;

verus! {

/// How many messages each pool holds.
pub const POOL_SIZE: usize = 10;

/// What the game says of a guess below the secret number.
pub const TOO_SMALL: [&'static str; 10] = [
    "Well, butter my biscuit! That guess is smaller than a flea on a flea's back! Try again!",
    "Oh dear, that guess is tinier than a teaspoon in a sea of soup! Give it another shot!",
    "Whoa, that guess is smaller than a pixel on a smartphone screen! Back to the drawing board!",
    "Yikes! That guess is smaller than a seed in a sunflower! Let's aim higher, shall we?",
    "Goodness gracious! That guess is smaller than a snowflake in July! Let's try something bigger!",
    "Oh my stars! That guess is smaller than a teaspoon in a galaxy-sized cup of cosmic cocoa! Give it another go!",
    "Golly gee! That guess is tinier than a tater tot in a toddler's lunchbox! Let's aim higher, champ!",
    "Holy guacamole! That guess is smaller than a seed in an avocado! Time to think bigger!",
    "Oh snap! That guess is smaller than a speck of dust on a flea's wing! Let's beef it up!",
    "Well, slap my knee! That guess is smaller than a raindrop in a desert! Try again, partner!",
];

/// What the game says of a guess above the secret number.
pub const TOO_LARGE: [&'static str; 10] = [
    "Whoa there, that guess is bigger than a burger on cheat day! But not quite right!",
    "Hoo boy, that guess is larger than a slice of cake at a birthday party! Try again!",
    "Holy moly, that guess is grander than a triple-decker sandwich! Let's dial it back a bit!",
    "Goodness gracious, that guess is as huge as a whale in a goldfish bowl! Try something smaller!",
    "Gee whiz, that guess is larger than a mountain in a molehill contest! Let's scale it down!",
    "Well, slap my hand! That guess is bigger than Texas on a map! Let's rein it in a tad!",
    "Whoopsie daisy! That guess is bigger than a bus in a bike lane! Try something more modest!",
    "Oh my, that guess is larger than life itself! But alas, not quite right! Try again, champ!",
    "Hold your horses! That guess is bigger than a parade float on a sidewalk! Let's trim it down!",
    "Whoosh! That guess is flying higher than a kite in a thunderstorm! Bring it back to earth, buddy!",
];

/// The text of every message of `pool`, in order.
pub open spec fn texts<const N: usize>(pool: [&'static str; N]) -> Seq<Seq<char>> {
    Seq::new(N as nat, |i: int| pool@[i]@)
}

/// The message of `pool` at `index`.
pub fn pick<const N: usize>(pool: &[&'static str; N], index: usize) -> (message: &'static str)
    requires
        index < N,
    ensures
        message@ == texts(*pool)[index as int],
{
    pool[index]
}

/// A message of `pool`, at an index drawn at random.
pub fn pick_at_random<const N: usize>(pool: &[&'static str; N]) -> (message: &'static str)
    requires
        N > 0,
    ensures
        texts(*pool).contains(message@),
{
    let index: usize = random_in(0, N);
    let message = pick(pool, index);
    message
}

} // verus!
