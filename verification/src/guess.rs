use vstd::prelude::*;

verus! {

/// What the guessing loop does with one line of input.
#[derive(Clone, Copy, Debug, PartialEq, Eq, Structural)]
pub enum GuessStep {
    /// The input did not parse as a number: it is discarded and the loop
    /// prompts again.
    Retry,
    /// The guess is below the secret number.
    TooSmall,
    /// The guess is above the secret number.
    TooBig,
    /// The guess equals the secret number: the game ends.
    Win,
}

/// The decision the guessing loop takes for one parsed input against the
/// secret number.
pub open spec fn guess_decision(guess: Option<u32>, secret: u32) -> GuessStep {
    match guess {
        None => GuessStep::Retry,
        Some(g) => if g < secret {
            GuessStep::TooSmall
        } else if g > secret {
            GuessStep::TooBig
        } else {
            GuessStep::Win
        },
    }
}

/// Decide one round of the guessing game: `guess` is the parse result of
/// the input line, `secret` the number to find.
pub fn guess_step(guess: Option<u32>, secret: u32) -> (r: GuessStep)
    ensures
        r == guess_decision(guess, secret),
{
    match guess {
        None => GuessStep::Retry,
        Some(g) => {
            if g < secret {
                GuessStep::TooSmall
            } else if g > secret {
                GuessStep::TooBig
            } else {
                GuessStep::Win
            }
        }
    }
}

} // verus!
