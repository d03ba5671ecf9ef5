use vstd::prelude::*;

verus! {

// The guessing game proper is an input loop around one decision: how a
// guess compares against the secret number. The decision is here, with an
// exact contract; the host program draws the secret, reads guesses, prints
// the verdicts, and stops on `Correct`.

/// The verdict on one guess.
#[derive(Clone, Copy, PartialEq, Eq, Structural, Debug)]
pub enum GuessOutcome {
    TooSmall,
    TooBig,
    Correct,
}

/// Compares a guess against the secret number and says which way it missed,
/// or that it hit.
pub fn compare_guess(guess: u32, secret: u32) -> (r: GuessOutcome)
    ensures
        r is TooSmall <==> guess < secret,
        r is TooBig <==> guess > secret,
        r is Correct <==> guess == secret,
{
    if guess < secret {
        GuessOutcome::TooSmall
    } else if guess > secret {
        GuessOutcome::TooBig
    } else {
        GuessOutcome::Correct
    }
}

} // verus!
