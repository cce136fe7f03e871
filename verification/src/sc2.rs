//! Game-level data shared by every component: races, difficulty levels and
//! per-player outcomes, with their numbering in the engine protocol.
//!
//! The engine protocol numbers its enumerations; the functions named
//! `to_proto` and `from_proto` convert between the types of this module and
//! those numbers.

use vstd::prelude::*;
use vstd::string::StringExecFns;

verus! {

/// A playable race.
#[derive(Debug, Clone, Copy, PartialEq, Eq, Structural)]
pub enum Race {
    Protoss,
    Terran,
    Zerg,
    Random,
}

impl Race {
    /// The number the engine protocol gives to this race.
    pub open spec fn proto_number(self) -> int {
        match self {
            Race::Terran => 1,
            Race::Zerg => 2,
            Race::Protoss => 3,
            Race::Random => 4,
        }
    }

    /// Whether `number` is the protocol number of a playable race.
    pub open spec fn is_proto_number(number: int) -> bool {
        1 <= number <= 4
    }

    /// The race with the given protocol number.
    pub open spec fn of_proto_number(number: int) -> Race {
        if number == 1 {
            Race::Terran
        } else if number == 2 {
            Race::Zerg
        } else if number == 3 {
            Race::Protoss
        } else {
            Race::Random
        }
    }

    /// The race with the given protocol number. The protocol's number 0
    /// ("no race") and numbers it does not define have no race.
    pub fn from_proto(number: i32) -> (race: Race)
        requires
            Race::is_proto_number(number as int),
        ensures
            race == Race::of_proto_number(number as int),
            race.proto_number() == number,
    {
        if number == 1 {
            Race::Terran
        } else if number == 2 {
            Race::Zerg
        } else if number == 3 {
            Race::Protoss
        } else {
            Race::Random
        }
    }

    /// The protocol number of this race.
    pub fn to_proto(self) -> (number: i32)
        ensures
            number == self.proto_number(),
            Race::is_proto_number(number as int),
    {
        match self {
            Race::Terran => 1,
            Race::Zerg => 2,
            Race::Protoss => 3,
            Race::Random => 4,
        }
    }
}

impl Default for Race {
    fn default() -> (race: Race)
        ensures
            race == Race::Random,
    {
        Race::Random
    }
}

/// Built-in AI difficulty level.
#[derive(Debug, Clone, Copy, PartialEq, Eq, Structural)]
pub enum Difficulty {
    VeryEasy,
    Easy,
    Medium,
    MediumHard,
    Hard,
    Harder,
    VeryHard,
    CheatVision,
    CheatMoney,
    CheatInsane,
}

impl Difficulty {
    /// The number the engine protocol gives to this difficulty.
    pub open spec fn proto_number(self) -> int {
        match self {
            Difficulty::VeryEasy => 1,
            Difficulty::Easy => 2,
            Difficulty::Medium => 3,
            Difficulty::MediumHard => 4,
            Difficulty::Hard => 5,
            Difficulty::Harder => 6,
            Difficulty::VeryHard => 7,
            Difficulty::CheatVision => 8,
            Difficulty::CheatMoney => 9,
            Difficulty::CheatInsane => 10,
        }
    }

    /// The protocol number of this difficulty.
    pub fn to_proto(self) -> (number: i32)
        ensures
            number == self.proto_number(),
    {
        match self {
            Difficulty::VeryEasy => 1,
            Difficulty::Easy => 2,
            Difficulty::Medium => 3,
            Difficulty::MediumHard => 4,
            Difficulty::Hard => 5,
            Difficulty::Harder => 6,
            Difficulty::VeryHard => 7,
            Difficulty::CheatVision => 8,
            Difficulty::CheatMoney => 9,
            Difficulty::CheatInsane => 10,
        }
    }
}

impl Default for Difficulty {
    fn default() -> (difficulty: Difficulty)
        ensures
            difficulty == Difficulty::Hard,
    {
        Difficulty::Hard
    }
}

/// A computer opponent run by the engine itself.
#[allow(clippy::upper_case_acronyms)]
#[derive(Debug, Clone, Copy, PartialEq, Eq, Structural)]
pub struct BuiltinAI {
    pub race: Race,
    pub difficulty: Difficulty,
}

/// Outcome of a match for one player.
#[derive(Debug, Clone, Copy, PartialEq, Eq, Structural, PartialOrd, Ord, Hash)]
pub enum PlayerResult {
    Victory,
    Defeat,
    Tie,
    Crash,
    #[allow(clippy::upper_case_acronyms)]
    SC2Crash,
    Timeout,
}

impl PlayerResult {
    /// Position of the outcome in the declaration order, by which outcomes
    /// are ordered.
    pub open spec fn rank(self) -> int {
        match self {
            PlayerResult::Victory => 0,
            PlayerResult::Defeat => 1,
            PlayerResult::Tie => 2,
            PlayerResult::Crash => 3,
            PlayerResult::SC2Crash => 4,
            PlayerResult::Timeout => 5,
        }
    }

    /// The number under which the engine protocol reports this outcome.
    /// A crash of the bot and a timeout count as a defeat; a crash of the
    /// engine is undecided (number 4).
    pub open spec fn proto_number(self) -> int {
        match self {
            PlayerResult::Victory => 1,
            PlayerResult::Defeat => 2,
            PlayerResult::Tie => 3,
            PlayerResult::Crash => 2,
            PlayerResult::Timeout => 2,
            PlayerResult::SC2Crash => 4,
        }
    }

    /// Whether `number` is a decided outcome of the engine protocol.
    pub open spec fn is_decided_number(number: int) -> bool {
        1 <= number <= 3
    }

    /// The outcome with the given protocol number, for the decided outcomes
    /// (victory, defeat, tie).
    pub open spec fn of_proto_number(number: int) -> PlayerResult {
        if number == 1 {
            PlayerResult::Victory
        } else if number == 2 {
            PlayerResult::Defeat
        } else {
            PlayerResult::Tie
        }
    }

    /// The text under which the outcome appears in a match report.
    pub open spec fn name(self) -> Seq<char> {
        match self {
            PlayerResult::Victory => "Victory"@,
            PlayerResult::Defeat => "Defeat"@,
            PlayerResult::Tie => "Tie"@,
            PlayerResult::Crash => "Crash"@,
            PlayerResult::SC2Crash => "SC2Crash"@,
            PlayerResult::Timeout => "Timeout"@,
        }
    }

    /// Executable form of [`PlayerResult::rank`].
    pub fn rank_number(self) -> (rank: u8)
        ensures
            rank == self.rank(),
    {
        match self {
            PlayerResult::Victory => 0,
            PlayerResult::Defeat => 1,
            PlayerResult::Tie => 2,
            PlayerResult::Crash => 3,
            PlayerResult::SC2Crash => 4,
            PlayerResult::Timeout => 5,
        }
    }

    /// The outcome that the engine reports under `number`. The protocol's
    /// "undecided" is not an outcome of a finished match.
    pub fn from_proto(number: i32) -> (result: PlayerResult)
        requires
            PlayerResult::is_decided_number(number as int),
        ensures
            result == PlayerResult::of_proto_number(number as int),
            result.proto_number() == number,
    {
        if number == 1 {
            PlayerResult::Victory
        } else if number == 2 {
            PlayerResult::Defeat
        } else {
            PlayerResult::Tie
        }
    }

    /// The protocol number of this outcome.
    pub fn to_proto(self) -> (number: i32)
        ensures
            number == self.proto_number(),
    {
        match self {
            PlayerResult::Victory => 1,
            PlayerResult::Defeat => 2,
            PlayerResult::Tie => 3,
            PlayerResult::Crash => 2,
            PlayerResult::Timeout => 2,
            PlayerResult::SC2Crash => 4,
        }
    }

    /// The outcome as it is written in a match report.
    pub fn to_string(&self) -> (text: String)
        ensures
            text@ == self.name(),
    {
        match self {
            PlayerResult::Victory => String::from_str("Victory"),
            PlayerResult::Defeat => String::from_str("Defeat"),
            PlayerResult::Tie => String::from_str("Tie"),
            PlayerResult::Crash => String::from_str("Crash"),
            PlayerResult::SC2Crash => String::from_str("SC2Crash"),
            PlayerResult::Timeout => String::from_str("Timeout"),
        }
    }
}

} // verus!
