//! Messages between the game runner, the player drivers and the supervisor.

use vstd::prelude::*;
use crate::sc2::PlayerResult;

verus! {

/// Request from the supervisor to a running game.
#[derive(Debug, Clone, Copy, PartialEq, Eq, Structural)]
pub enum FromSupervisor {
    Quit,
}

/// Response of a running game to the supervisor. A running game has
/// nothing to say to the supervisor yet.
#[derive(Debug, Clone, Copy, PartialEq, Eq, Structural)]
pub enum ToSupervisor {
    Nothing,
}

/// Message from the game runner to a player driver.
#[derive(Debug, Clone, Copy, PartialEq, Eq, Structural)]
pub enum ToPlayer {
    /// Game over, end the driver.
    Quit,
}

/// The end of a game as one driver saw it.
#[derive(Debug, Clone, PartialEq, Eq)]
pub struct GameOver {
    /// Outcome of each player, ordered by the engine's player ids.
    pub results: Vec<PlayerResult>,
    /// Game loops played.
    pub game_loops: u32,
    /// Mean time the reporting bot took per game loop, in microseconds.
    pub frame_time: u64,
    /// Tags the reporting bot sent by chat, first sent first.
    pub tags: Vec<String>,
}

/// [`GameOver`] as a mathematical value.
pub struct GameOverView {
    pub results: Seq<PlayerResult>,
    pub game_loops: u32,
    pub frame_time: u64,
    pub tags: Seq<Seq<char>>,
}

impl View for GameOver {
    type V = GameOverView;

    open spec fn view(&self) -> GameOverView {
        GameOverView {
            results: self.results@,
            game_loops: self.game_loops,
            frame_time: self.frame_time,
            tags: self.tags.deep_view(),
        }
    }
}

/// What a player driver tells the game runner when it ends.
#[derive(Debug, Clone, PartialEq, Eq)]
pub enum ToGameContent {
    /// The game ended, normally or by surrender or by the time limit.
    GameOver(GameOver),
    /// The engine answered a `leave_game` request.
    LeftGame,
    /// The engine answered a `quit` request while the bot was in the game.
    QuitBeforeLeave,
    /// The engine closed its connection.
    SC2UnexpectedConnectionClose,
    /// The bot closed its connection or stopped answering.
    UnexpectedConnectionClose,
}

/// [`ToGameContent`] as a mathematical value.
pub enum ToGameContentView {
    GameOver(GameOverView),
    LeftGame,
    QuitBeforeLeave,
    SC2UnexpectedConnectionClose,
    UnexpectedConnectionClose,
}

impl View for ToGameContent {
    type V = ToGameContentView;

    open spec fn view(&self) -> ToGameContentView {
        match self {
            ToGameContent::GameOver(over) => ToGameContentView::GameOver(over@),
            ToGameContent::LeftGame => ToGameContentView::LeftGame,
            ToGameContent::QuitBeforeLeave => ToGameContentView::QuitBeforeLeave,
            ToGameContent::SC2UnexpectedConnectionClose =>
                ToGameContentView::SC2UnexpectedConnectionClose,
            ToGameContent::UnexpectedConnectionClose => ToGameContentView::UnexpectedConnectionClose,
        }
    }
}

/// A message of one player driver to the game runner.
#[derive(Debug, Clone, PartialEq, Eq)]
pub struct ToGame {
    /// Index of the reporting player: 0 for player 1, 1 for player 2.
    pub player_index: usize,
    pub content: ToGameContent,
}

} // verus!
