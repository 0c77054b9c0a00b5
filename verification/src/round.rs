use vstd::prelude::*;

use crate::config::GameConfig;
use crate::error::GameError;
use crate::parse::is_u32_numeral;
use crate::parse::numeral_value;
use crate::parse::parse_guess;

verus! {

/// What the game tells the player about one accepted guess: the guess was
/// below the secret (so guess higher), above it (so guess lower), or
/// exactly right.
#[derive(Clone, Copy, Debug, PartialEq, Eq, Structural)]
pub enum Feedback {
    TooLow,
    TooHigh,
    Correct,
}

/// One round of play: a configuration, a secret number fixed for the life
/// of the round, and the count of accepted guesses so far.
pub struct GameRound {
    pub config: GameConfig,
    pub secret: u32,
    pub attempts: u32,
}

impl GameRound {
    /// The configuration is well formed and the secret lies in its range.
    pub open spec fn wf(self) -> bool {
        self.config.wf() && self.config.min <= self.secret <= self.config.max
    }

    /// Start a round with the given secret and no attempts yet.
    pub fn new(config: GameConfig, secret: u32) -> (r: GameRound)
        requires
            config.wf(),
            config.min <= secret <= config.max,
        ensures
            r.config == config,
            r.secret == secret,
            r.attempts == 0,
            r.wf(),
    {
        GameRound { config, secret, attempts: 0 }
    }

    /// Submit one line of player input as a guess. A line that is not an
    /// in-range numeral is rejected with the same error `parse_guess`
    /// gives, and the round does not change: rejected lines do not count
    /// as attempts. An accepted guess counts as one attempt and is
    /// answered by its comparison against the secret.
    pub fn submit_guess(&mut self, raw: &str) -> (r: Result<Feedback, GameError>)
        requires
            old(self).wf(),
            old(self).attempts < u32::MAX,
        ensures
            final(self).wf(),
            final(self).config == old(self).config,
            final(self).secret == old(self).secret,
            (match r {
                Ok(f) => is_u32_numeral(raw@) && old(self).config.min <= numeral_value(raw@)
                    <= old(self).config.max && final(self).attempts == old(self).attempts + 1
                    && (match f {
                    Feedback::TooLow => numeral_value(raw@) < old(self).secret,
                    Feedback::TooHigh => numeral_value(raw@) > old(self).secret,
                    Feedback::Correct => numeral_value(raw@) == old(self).secret,
                }),
                Err(e) => *final(self) == *old(self) && (match e {
                    GameError::ParseError => !is_u32_numeral(raw@),
                    GameError::OutOfRange { min, max } => min == old(self).config.min && max == old(
                        self,
                    ).config.max && is_u32_numeral(raw@) && !(old(self).config.min <= numeral_value(
                        raw@,
                    ) <= old(self).config.max),
                    GameError::IoError => false,
                }),
            }),
    {
        match parse_guess(raw, &self.config) {
            Ok(guess) => {
                self.attempts = self.attempts + 1;
                if guess < self.secret {
                    Ok(Feedback::TooLow)
                } else if guess > self.secret {
                    Ok(Feedback::TooHigh)
                } else {
                    Ok(Feedback::Correct)
                }
            },
            Err(e) => Err(e),
        }
    }
}

} // verus!
