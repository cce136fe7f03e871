//! Match configuration, as the supervisor submits it before the bots connect.

pub mod race;

use vstd::prelude::*;
use crate::config::race::BotRace;
use crate::sc2::Race;

verus! {

/// Configuration of one match.
#[derive(Debug, Default, PartialEq)]
pub struct Config {
    /// Name of the map to play.
    pub map: String,
    /// Game loops after which the match is a tie.
    pub max_game_time: u32,
    /// Seconds a bot may take to send its next request.
    pub max_frame_time: i32,
    /// Kept for the supervisor; the arbiter does not read it.
    pub strikes: i32,
    /// Name of the bot that connects first.
    pub player1: String,
    /// Name of the bot that connects second.
    pub player2: String,
    /// Where the replay is written; empty for no replay.
    pub replay_path: String,
    /// The supervisor's number for the match.
    pub match_id: i64,
    /// Name of the replay, as reported back.
    pub replay_name: String,
    /// Whether debug requests of the bots are kept from the engine.
    pub disable_debug: bool,
    /// Whether the game runs in real time.
    pub real_time: bool,
    /// Kept for the supervisor; the arbiter does not read it.
    pub visualize: bool,
    /// Whether engines are started one after the other, on the caller's task.
    pub light_mode: bool,
    /// Whether the races given here override those the bots ask for.
    pub validate_race: bool,
    /// Race token of the first bot.
    pub player1_race: Option<String>,
    /// Race token of the second bot.
    pub player2_race: Option<String>,
    /// Whether both bots control one player (archon mode).
    pub archon: bool,
}

impl Clone for Config {
    fn clone(&self) -> (copy: Config)
        ensures
            copy == *self,
    {
        Config {
            map: self.map.clone(),
            max_game_time: self.max_game_time,
            max_frame_time: self.max_frame_time,
            strikes: self.strikes,
            player1: self.player1.clone(),
            player2: self.player2.clone(),
            replay_path: self.replay_path.clone(),
            match_id: self.match_id,
            replay_name: self.replay_name.clone(),
            disable_debug: self.disable_debug,
            real_time: self.real_time,
            visualize: self.visualize,
            light_mode: self.light_mode,
            validate_race: self.validate_race,
            player1_race: self.player1_race(),
            player2_race: self.player2_race(),
            archon: self.archon,
        }
    }
}

/// The race that an optional token names; no token, no race.
pub open spec fn race_of_token(token: Option<String>) -> Option<Race> {
    match token {
        Some(t) => Some(BotRace::of_token(t@).race()),
        None => None,
    }
}

impl Config {
    pub fn map(&self) -> (map: &String)
        ensures
            map == self.map,
    {
        &self.map
    }

    pub fn disable_debug(&self) -> (flag: bool)
        ensures
            flag == self.disable_debug,
    {
        self.disable_debug
    }

    pub fn realtime(&self) -> (flag: bool)
        ensures
            flag == self.real_time,
    {
        self.real_time
    }

    pub fn player1(&self) -> (name: String)
        ensures
            name == self.player1,
    {
        self.player1.clone()
    }

    pub fn player2(&self) -> (name: String)
        ensures
            name == self.player2,
    {
        self.player2.clone()
    }

    pub fn max_game_time(&self) -> (loops: u32)
        ensures
            loops == self.max_game_time,
    {
        self.max_game_time
    }

    pub fn max_frame_time(&self) -> (seconds: i32)
        ensures
            seconds == self.max_frame_time,
    {
        self.max_frame_time
    }

    pub fn replay_path(&self) -> (path: String)
        ensures
            path == self.replay_path,
    {
        self.replay_path.clone()
    }

    pub fn light_mode(&self) -> (flag: bool)
        ensures
            flag == self.light_mode,
    {
        self.light_mode
    }

    pub fn validate_race(&self) -> (flag: bool)
        ensures
            flag == self.validate_race,
    {
        self.validate_race
    }

    pub fn player1_race(&self) -> (token: Option<String>)
        ensures
            token == self.player1_race,
    {
        match &self.player1_race {
            Some(t) => Some(t.clone()),
            None => None,
        }
    }

    /// The race that the configuration gives the first bot, if any.
    pub fn player1_bot_race(&self) -> (race: Option<Race>)
        ensures
            race == race_of_token(self.player1_race),
    {
        match &self.player1_race {
            Some(t) => Some(BotRace::from_str(t.as_str()).to_race()),
            None => None,
        }
    }

    pub fn player2_race(&self) -> (token: Option<String>)
        ensures
            token == self.player2_race,
    {
        match &self.player2_race {
            Some(t) => Some(t.clone()),
            None => None,
        }
    }

    /// The race that the configuration gives the second bot, if any.
    pub fn player2_bot_race(&self) -> (race: Option<Race>)
        ensures
            race == race_of_token(self.player2_race),
    {
        match &self.player2_race {
            Some(t) => Some(BotRace::from_str(t.as_str()).to_race()),
            None => None,
        }
    }

    pub fn archon(&self) -> (flag: bool)
        ensures
            flag == self.archon,
    {
        self.archon
    }
}

} // verus!
