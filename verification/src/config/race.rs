//! Race tokens as a supervisor writes them in a match configuration.

use vstd::prelude::*;
use crate::sc2::Race;
use crate::text::{chars_of, lower, lower_text, same_text};

verus! {

/// A race as named by a token of the match configuration. `NoRace` stands
/// for no race at all; no token reads as it.
#[derive(Debug, Clone, Copy, PartialEq, Eq, Structural, PartialOrd)]
pub enum BotRace {
    NoRace,
    Terran,
    Zerg,
    Protoss,
    Random,
}

impl BotRace {
    /// The race that a token names. Letters count without regard to case;
    /// a token that is none of the race tokens names a random race.
    pub open spec fn of_token(token: Seq<char>) -> BotRace {
        let t = lower(token);
        if t == "p"@ || t == "protoss"@ || t == "race.protoss"@ || t == "3"@ {
            BotRace::Protoss
        } else if t == "t"@ || t == "terran"@ || t == "race.terran"@ || t == "1"@ {
            BotRace::Terran
        } else if t == "r"@ || t == "random"@ || t == "race.random"@ || t == "4"@ {
            BotRace::Random
        } else if t == "z"@ || t == "zerg"@ || t == "race.zerg"@ || t == "2"@ {
            BotRace::Zerg
        } else {
            BotRace::Random
        }
    }

    /// The race a bot plays under this value: without a race it plays a
    /// random race.
    pub open spec fn race(self) -> Race {
        match self {
            BotRace::Terran => Race::Terran,
            BotRace::Zerg => Race::Zerg,
            BotRace::Protoss => Race::Protoss,
            BotRace::Random => Race::Random,
            BotRace::NoRace => Race::Random,
        }
    }

    /// Reads a race token.
    pub fn from_str(race: &str) -> (bot_race: BotRace)
        ensures
            bot_race == BotRace::of_token(race@),
    {
        let t = lower_text(&chars_of(race));
        if same_text(&t, &chars_of("p")) || same_text(&t, &chars_of("protoss")) || same_text(
            &t,
            &chars_of("race.protoss"),
        ) || same_text(&t, &chars_of("3")) {
            BotRace::Protoss
        } else if same_text(&t, &chars_of("t")) || same_text(&t, &chars_of("terran"))
            || same_text(&t, &chars_of("race.terran")) || same_text(&t, &chars_of("1")) {
            BotRace::Terran
        } else if same_text(&t, &chars_of("r")) || same_text(&t, &chars_of("random"))
            || same_text(&t, &chars_of("race.random")) || same_text(&t, &chars_of("4")) {
            BotRace::Random
        } else if same_text(&t, &chars_of("z")) || same_text(&t, &chars_of("zerg")) || same_text(
            &t,
            &chars_of("race.zerg"),
        ) || same_text(&t, &chars_of("2")) {
            BotRace::Zerg
        } else {
            BotRace::Random
        }
    }

    /// The race a bot plays under this token.
    pub fn to_race(&self) -> (race: Race)
        ensures
            race == self.race(),
    {
        match self {
            BotRace::Terran => Race::Terran,
            BotRace::Zerg => Race::Zerg,
            BotRace::Protoss => Race::Protoss,
            BotRace::Random => Race::Random,
            BotRace::NoRace => Race::Random,
        }
    }
}

/// Reading a race token does not depend on the case of its letters: two
/// tokens that differ only in the case of ASCII letters name the same race.
pub proof fn from_str_ignores_case(a: Seq<char>, b: Seq<char>)
    requires
        lower(a) == lower(b),
    ensures
        BotRace::of_token(a) == BotRace::of_token(b),
{
}

/// A token that is none of the sixteen race tokens reads as a random race,
/// and a bot configured with it plays a random race.
pub proof fn unknown_token_is_random(token: Seq<char>)
    requires
        ({
            let t = lower(token);
            &&& t != "p"@ && t != "protoss"@ && t != "race.protoss"@ && t != "3"@
            &&& t != "t"@ && t != "terran"@ && t != "race.terran"@ && t != "1"@
            &&& t != "r"@ && t != "random"@ && t != "race.random"@ && t != "4"@
            &&& t != "z"@ && t != "zerg"@ && t != "race.zerg"@ && t != "2"@
        }),
    ensures
        BotRace::of_token(token) == BotRace::Random,
        BotRace::of_token(token).race() == Race::Random,
{
}

} // verus!
