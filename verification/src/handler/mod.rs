//! A match from lobby to result: the lobby that assembles the players, the
//! drivers that relay between each bot and its engine, and the runner that
//! gathers the outcomes.

pub mod game;
pub mod lobby;
pub mod messaging;
pub mod obfuscation;
pub mod outcome;
pub mod player;
pub mod tags;

pub use self::game::{Game, GameResult};
pub use self::lobby::{GameLobby, PlayerNum};
pub use self::messaging::{FromSupervisor, ToSupervisor};
