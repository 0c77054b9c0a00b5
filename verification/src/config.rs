use vstd::prelude::*;

verus! {

/// The three difficulty presets a player can choose from.
#[derive(Clone, Copy, Debug, PartialEq, Eq, Structural)]
pub enum Difficulty {
    Easy,
    Normal,
    Hard,
}

/// The inclusive upper bound of the guessable range for a difficulty.
/// Every difficulty's lower bound is 1.
pub open spec fn spec_max(d: Difficulty) -> u32 {
    match d {
        Difficulty::Easy => 50,
        Difficulty::Normal => 100,
        Difficulty::Hard => 200,
    }
}

/// The display label of a difficulty.
pub open spec fn spec_name(d: Difficulty) -> Seq<char> {
    match d {
        Difficulty::Easy => "Beginner"@,
        Difficulty::Normal => "Intermediate"@,
        Difficulty::Hard => "Advanced"@,
    }
}

/// The guessable range `[min, max]` and display label for one round,
/// derived from the chosen difficulty and never mutated afterwards.
pub struct GameConfig {
    pub min: u32,
    pub max: u32,
    pub name: String,
}

impl GameConfig {
    /// The range is non-empty and starts at 1 or above.
    pub open spec fn wf(self) -> bool {
        1 <= self.min && self.min <= self.max
    }

    /// Resolve a difficulty to its configuration: min is always 1 and
    /// max and the label follow the preset table.
    pub fn new(difficulty: Difficulty) -> (c: GameConfig)
        ensures
            c.wf(),
            c.min == 1,
            c.max == spec_max(difficulty),
            c.name@ == spec_name(difficulty),
    {
        match difficulty {
            Difficulty::Easy => GameConfig { min: 1, max: 50, name: "Beginner".to_owned() },
            Difficulty::Normal => GameConfig {
                min: 1,
                max: 100,
                name: "Intermediate".to_owned(),
            },
            Difficulty::Hard => GameConfig { min: 1, max: 200, name: "Advanced".to_owned() },
        }
    }

    /// A guess is acceptable exactly when it lies within `[min, max]`.
    pub fn is_valid_range(&self, guess: u32) -> (r: bool)
        ensures
            r == (self.min <= guess <= self.max),
    {
        self.min <= guess && guess <= self.max
    }
}

} // verus!
