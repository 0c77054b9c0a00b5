use vstd::prelude::*;

use crate::config::Difficulty;
use crate::config::GameConfig;
use crate::config::spec_max;
use crate::config::spec_name;
use crate::error::GameError;
use crate::parse::difficulty_choice;
use crate::parse::is_u32_numeral;
use crate::parse::numeral_value;
use crate::parse::parse_difficulty;
use crate::parse::parse_retry;
use crate::parse::retry_choice;
use crate::round::Feedback;
use crate::round::GameRound;

verus! {

/// Where the game stands: waiting for a difficulty, playing a round,
/// asking whether to play again, or finished.
#[derive(Clone, Copy, Debug, PartialEq, Eq, Structural)]
pub enum GameState {
    SelectDifficulty,
    Playing,
    AskRetry,
    Terminated,
}

/// How the game treats a failed read at a prompt. The two policies are
/// offered as one uniform choice, applied at every prompt alike: either
/// every failed read repeats the prompt, or every failed read ends the
/// game.
#[derive(Clone, Copy, Debug, PartialEq, Eq, Structural)]
pub enum IoPolicy {
    RetryPrompt,
    Terminate,
}

/// The whole game: its current state, the round being played when there
/// is one, and the read-failure policy chosen at construction. The
/// embedding program performs the reads and prints; every decision is
/// made here.
pub struct Game {
    pub state: GameState,
    pub round: Option<GameRound>,
    pub policy: IoPolicy,
}

/// Relies on rand::random_range: a value drawn uniformly from the given
/// range; it panics only on an empty range, which `min <= max` rules out.
/// Nothing more than range membership can be promised of a random draw.
#[verifier::external_body]
fn random_in_range(min: u32, max: u32) -> (r: u32)
    requires
        min <= max,
    ensures
        min <= r <= max,
{
    rand::random_range(min..=max)
}

impl Game {
    /// While a round is being played or its retry prompt is up, the round
    /// exists and is well formed.
    pub open spec fn wf(self) -> bool {
        (self.state == GameState::Playing || self.state == GameState::AskRetry) ==> (
        self.round is Some && self.round->Some_0.wf())
    }

    /// A fresh game, waiting for a difficulty selection.
    pub fn new(policy: IoPolicy) -> (g: Game)
        ensures
            g.state == GameState::SelectDifficulty,
            g.round is None,
            g.policy == policy,
            g.wf(),
    {
        Game { state: GameState::SelectDifficulty, round: None, policy }
    }

    /// Begin a round at the given difficulty with the given secret: the
    /// configuration is built from the difficulty, the attempt counter
    /// starts at 0, and play begins. Taking the secret as an argument
    /// keeps every consequence of its value provable; `submit_difficulty`
    /// draws one at random and passes it in.
    pub fn begin_round(&mut self, difficulty: Difficulty, secret: u32)
        requires
            old(self).state == GameState::SelectDifficulty,
            1 <= secret <= spec_max(difficulty),
        ensures
            final(self).state == GameState::Playing,
            final(self).policy == old(self).policy,
            final(self).round is Some,
            ({
                let r = final(self).round->Some_0;
                r.config.min == 1 && r.config.max == spec_max(difficulty) && r.config.name@
                    == spec_name(difficulty) && r.secret == secret && r.attempts == 0
            }),
            final(self).wf(),
    {
        let config = GameConfig::new(difficulty);
        let round = GameRound::new(config, secret);
        self.round = Some(round);
        self.state = GameState::Playing;
    }

    /// Submit one line at the difficulty menu. A valid selection starts a
    /// round at that difficulty around a secret drawn uniformly from its
    /// range; any other line changes nothing, and the menu must be shown
    /// again.
    pub fn submit_difficulty(&mut self, line: &str) -> (r: Option<Difficulty>)
        requires
            old(self).state == GameState::SelectDifficulty,
        ensures
            r == difficulty_choice(line@),
            final(self).wf(),
            (match r {
                None => *final(self) == *old(self),
                Some(d) => final(self).state == GameState::Playing && final(self).policy == old(
                    self,
                ).policy && final(self).round is Some && ({
                    let rd = final(self).round->Some_0;
                    rd.config.min == 1 && rd.config.max == spec_max(d) && rd.config.name@
                        == spec_name(d) && rd.attempts == 0 && 1 <= rd.secret <= spec_max(d)
                }),
            }),
    {
        match parse_difficulty(line) {
            Some(difficulty) => {
                let secret = random_in_range(1, GameConfig::new(difficulty).max);
                self.begin_round(difficulty, secret);
                Some(difficulty)
            },
            None => None,
        }
    }

    /// Submit one line as a guess during play. A rejected line leaves the
    /// game unchanged and reports why it was rejected; an accepted guess
    /// counts one attempt and is answered by its comparison against the
    /// secret, and a correct one moves the game to the retry prompt with
    /// the finished round still readable.
    pub fn submit_guess_line(&mut self, line: &str) -> (r: Result<Feedback, GameError>)
        requires
            old(self).state == GameState::Playing,
            old(self).wf(),
            old(self).round->Some_0.attempts < u32::MAX,
        ensures
            final(self).wf(),
            final(self).policy == old(self).policy,
            final(self).round is Some,
            final(self).round->Some_0.config == old(self).round->Some_0.config,
            final(self).round->Some_0.secret == old(self).round->Some_0.secret,
            (match r {
                Ok(f) => is_u32_numeral(line@) && ({
                    let o = old(self).round->Some_0;
                    let n = final(self).round->Some_0;
                    o.config.min <= numeral_value(line@) <= o.config.max && n.attempts
                        == o.attempts + 1 && (match f {
                        Feedback::TooLow => numeral_value(line@) < o.secret,
                        Feedback::TooHigh => numeral_value(line@) > o.secret,
                        Feedback::Correct => numeral_value(line@) == o.secret,
                    }) && (if f == Feedback::Correct {
                        final(self).state == GameState::AskRetry
                    } else {
                        final(self).state == GameState::Playing
                    })
                }),
                Err(e) => *final(self) == *old(self) && (match e {
                    GameError::ParseError => !is_u32_numeral(line@),
                    GameError::OutOfRange { min, max } => ({
                        let o = old(self).round->Some_0;
                        min == o.config.min && max == o.config.max && is_u32_numeral(line@) && !(
                        o.config.min <= numeral_value(line@) <= o.config.max)
                    }),
                    GameError::IoError => false,
                }),
            }),
    {
        let result = match &mut self.round {
            Some(rd) => rd.submit_guess(line),
            None => unreached(),
        };
        match result {
            Ok(Feedback::Correct) => {
                self.state = GameState::AskRetry;
            },
            _ => {},
        }
        result
    }

    /// Submit one line at the retry prompt. A yes starts over at the
    /// difficulty menu, a no ends the game, and any other line changes
    /// nothing, so the prompt must be repeated.
    pub fn submit_retry_line(&mut self, line: &str) -> (r: Option<bool>)
        requires
            old(self).state == GameState::AskRetry,
            old(self).wf(),
        ensures
            r == retry_choice(line@),
            final(self).wf(),
            final(self).policy == old(self).policy,
            (match r {
                None => *final(self) == *old(self),
                Some(again) => (if again {
                    final(self).state == GameState::SelectDifficulty && final(self).round is None
                } else {
                    final(self).state == GameState::Terminated
                        && final(self).round == old(self).round
                }),
            }),
    {
        match parse_retry(line) {
            Some(true) => {
                self.state = GameState::SelectDifficulty;
                self.round = None;
                Some(true)
            },
            Some(false) => {
                self.state = GameState::Terminated;
                Some(false)
            },
            None => None,
        }
    }

    /// Record that a read from the input stream failed. Under
    /// `RetryPrompt` nothing changes and the current prompt is repeated;
    /// under `Terminate` the game ends where it stands.
    pub fn on_read_failure(&mut self)
        requires
            old(self).wf(),
        ensures
            final(self).wf(),
            (match old(self).policy {
                IoPolicy::RetryPrompt => *final(self) == *old(self),
                IoPolicy::Terminate => final(self).state == GameState::Terminated
                    && final(self).round == old(self).round
                    && final(self).policy == old(self).policy,
            }),
    {
        match self.policy {
            IoPolicy::RetryPrompt => {},
            IoPolicy::Terminate => {
                self.state = GameState::Terminated;
            },
        }
    }
}

} // verus!
