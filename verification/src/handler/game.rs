//! The game runner: gathers what the player drivers report into the result
//! of the match.

use vstd::prelude::*;
use crate::config::Config;
use crate::handler::messaging::{
    FromSupervisor, GameOverView, ToGame, ToGameContent, ToGameContentView,
};
use crate::handler::player::Player;
use crate::handler::tags::copy_tags;
use crate::sc2::PlayerResult;

verus! {

/// Why a game ended.
#[derive(Debug, Clone, Copy, PartialEq, Eq, Structural)]
pub enum GameEndReason {
    /// Every player has an outcome.
    Normal,
    /// The supervisor asked the game to quit.
    QuitRequest,
}

/// Result of a game.
#[derive(Debug, Clone, PartialEq, Eq)]
pub struct GameResult {
    pub end_reason: GameEndReason,
    /// Outcome of each player, player 1 first; empty after a quit request.
    pub player_results: Vec<PlayerResult>,
    /// Mean frame time of each player in microseconds, player 1 first; none
    /// after a quit request.
    pub average_frame_time: Option<Vec<u64>>,
    /// Game loops played.
    pub game_loops: u32,
}

/// [`GameResult`] as a mathematical value.
pub struct GameResultView {
    pub end_reason: GameEndReason,
    pub player_results: Seq<PlayerResult>,
    pub average_frame_time: Option<Seq<u64>>,
    pub game_loops: u32,
}

impl View for GameResult {
    type V = GameResultView;

    open spec fn view(&self) -> GameResultView {
        GameResultView {
            end_reason: self.end_reason,
            player_results: self.player_results@,
            average_frame_time: match self.average_frame_time {
                Some(times) => Some(times@),
                None => None,
            },
            game_loops: self.game_loops,
        }
    }
}

/// What the runner has gathered so far.
#[derive(Debug, Clone, PartialEq, Eq)]
pub struct Tally {
    /// Outcome of each player, as far as known.
    pub player_results: Vec<Option<PlayerResult>>,
    /// Game loops played, as last reported.
    pub game_loops: u32,
    /// Mean frame time of each player in microseconds.
    pub frame_times: Vec<u64>,
    /// Tags of each player.
    pub tags: Vec<Vec<String>>,
}

/// [`Tally`] as a mathematical value.
pub struct TallyView {
    pub player_results: Seq<Option<PlayerResult>>,
    pub game_loops: u32,
    pub frame_times: Seq<u64>,
    pub tags: Seq<Seq<Seq<char>>>,
}

impl View for Tally {
    type V = TallyView;

    open spec fn view(&self) -> TallyView {
        TallyView {
            player_results: self.player_results@,
            game_loops: self.game_loops,
            frame_times: self.frame_times@,
            tags: self.tags.deep_view(),
        }
    }
}

/// What the runner is told.
#[derive(Debug, Clone, PartialEq, Eq)]
pub enum GameEvent {
    /// A driver reports.
    Player(ToGame),
    /// The supervisor asks.
    Supervisor(FromSupervisor),
}

impl TallyView {
    /// One slot for each player in every list.
    pub open spec fn wf(self) -> bool {
        &&& self.frame_times.len() == self.player_results.len()
        &&& self.tags.len() == self.player_results.len()
    }

    /// Whether every player has an outcome.
    pub open spec fn complete(self) -> bool {
        forall|i: int| 0 <= i < self.player_results.len() ==> self.player_results[i] is Some
    }

    /// The tally before any report, for the given number of players.
    pub open spec fn empty(players: nat) -> TallyView {
        TallyView {
            player_results: Seq::new(players, |i: int| None::<PlayerResult>),
            game_loops: 0,
            frame_times: Seq::new(players, |i: int| 0u64),
            tags: Seq::new(players, |i: int| Seq::<Seq<char>>::empty()),
        }
    }

    /// The outcomes once the player at `index` reports those of a finished
    /// game: every player without an outcome gets the one reported for it.
    pub open spec fn filled(self, results: Seq<PlayerResult>) -> Seq<Option<PlayerResult>> {
        Seq::new(
            self.player_results.len(),
            |i: int|
                if self.player_results[i] is None && i < results.len() {
                    Some(results[i])
                } else {
                    self.player_results[i]
                },
        )
    }

    /// The outcomes once the bot or the engine of the player at `index` has
    /// vanished: the outcome `crash` for that player, and a victory for every
    /// player that has no outcome yet.
    pub open spec fn crashed(self, index: int, crash: PlayerResult) -> Seq<Option<PlayerResult>> {
        Seq::new(
            self.player_results.len(),
            |i: int|
                if i == index {
                    Some(crash)
                } else if self.player_results[i] is None {
                    Some(PlayerResult::Victory)
                } else {
                    self.player_results[i]
                },
        )
    }

    /// The tally after the report `content` of the player at `index`.
    pub open spec fn processed(self, index: int, content: ToGameContentView) -> TallyView {
        match content {
            ToGameContentView::GameOver(over) => TallyView {
                player_results: self.filled(over.results),
                game_loops: over.game_loops,
                frame_times: self.frame_times.update(index, over.frame_time),
                tags: self.tags.update(index, over.tags),
            },
            ToGameContentView::LeftGame => TallyView {
                player_results: self.player_results.update(index, Some(PlayerResult::Defeat)),
                ..self
            },
            ToGameContentView::QuitBeforeLeave => TallyView {
                player_results: self.player_results.update(index, Some(PlayerResult::Defeat)),
                ..self
            },
            ToGameContentView::SC2UnexpectedConnectionClose => TallyView {
                player_results: self.crashed(index, PlayerResult::SC2Crash),
                ..self
            },
            ToGameContentView::UnexpectedConnectionClose => TallyView {
                player_results: self.crashed(index, PlayerResult::Crash),
                ..self
            },
        }
    }

    /// The result of a game in which every player has an outcome.
    pub open spec fn result(self) -> GameResultView {
        GameResultView {
            end_reason: GameEndReason::Normal,
            player_results: Seq::new(
                self.player_results.len(),
                |i: int| self.player_results[i]->Some_0,
            ),
            average_frame_time: Some(self.frame_times),
            game_loops: self.game_loops,
        }
    }
}

/// A game that is over stays over: a report takes no outcome away.
pub proof fn complete_is_stable(tally: TallyView, index: int, content: ToGameContentView)
    requires
        0 <= index < tally.player_results.len(),
        tally.complete(),
    ensures
        tally.processed(index, content).complete(),
{
}

/// The end of a game as one driver saw it changes no outcome that is known.
pub proof fn game_over_keeps_known_outcomes(
    tally: TallyView,
    index: int,
    over: GameOverView,
    player: int,
)
    requires
        0 <= player < tally.player_results.len(),
        tally.player_results[player] is Some,
    ensures
        tally.processed(index, ToGameContentView::GameOver(over)).player_results[player]
            == tally.player_results[player],
{
}

/// The result of a game that the supervisor made quit.
pub open spec fn quit_result() -> GameResultView {
    GameResultView {
        end_reason: GameEndReason::QuitRequest,
        player_results: Seq::empty(),
        average_frame_time: None,
        game_loops: 0,
    }
}

impl Tally {
    /// The tally before any report, for `players` players.
    pub fn new(players: usize) -> (tally: Tally)
        ensures
            tally@ == TallyView::empty(players as nat),
            tally@.wf(),
    {
        let mut player_results: Vec<Option<PlayerResult>> = Vec::new();
        let mut frame_times: Vec<u64> = Vec::new();
        let mut tags: Vec<Vec<String>> = Vec::new();
        let mut i: usize = 0;
        while i < players
            invariant
                i <= players,
                player_results@ == Seq::new(i as nat, |k: int| None::<PlayerResult>),
                frame_times@ == Seq::new(i as nat, |k: int| 0u64),
                tags.deep_view() == Seq::new(i as nat, |k: int| Seq::<Seq<char>>::empty()),
            decreases players - i,
        {
            let ghost before = tags.deep_view();
            player_results.push(None);
            frame_times.push(0);
            let none: Vec<String> = Vec::new();
            assert(none.deep_view() =~= Seq::<Seq<char>>::empty());
            tags.push(none);
            assert(tags.deep_view() =~= before.push(Seq::<Seq<char>>::empty()));
            i += 1;
            assert(player_results@ =~= Seq::new(i as nat, |k: int| None::<PlayerResult>));
            assert(frame_times@ =~= Seq::new(i as nat, |k: int| 0u64));
            assert(tags.deep_view() =~= Seq::new(i as nat, |k: int| Seq::<Seq<char>>::empty()));
        }
        Tally { player_results, game_loops: 0, frame_times, tags }
    }

    /// Whether every player has an outcome.
    pub fn complete(&self) -> (complete: bool)
        ensures
            complete == self@.complete(),
    {
        let mut i: usize = 0;
        while i < self.player_results.len()
            invariant
                i <= self.player_results.len(),
                forall|k: int| 0 <= k < i ==> self.player_results@[k] is Some,
            decreases self.player_results.len() - i,
        {
            if self.player_results[i].is_none() {
                return false;
            }
            i += 1;
        }
        true
    }

    /// The result of the game, once every player has an outcome.
    pub fn result(&self) -> (result: GameResult)
        requires
            self@.complete(),
        ensures
            result@ == self@.result(),
    {
        let mut player_results: Vec<PlayerResult> = Vec::new();
        let mut i: usize = 0;
        while i < self.player_results.len()
            invariant
                i <= self.player_results.len(),
                self@.complete(),
                player_results@ == Seq::new(i as nat, |k: int| self.player_results@[k]->Some_0),
            decreases self.player_results.len() - i,
        {
            match self.player_results[i] {
                Some(result) => player_results.push(result),
                None => {},
            }
            i += 1;
            assert(player_results@ =~= Seq::new(
                i as nat,
                |k: int| self.player_results@[k]->Some_0,
            ));
        }
        GameResult {
            end_reason: GameEndReason::Normal,
            player_results,
            average_frame_time: Some(self.frame_times.clone()),
            game_loops: self.game_loops,
        }
    }
}

/// A game that has started: its configuration and its players, player 1
/// first.
#[derive(Debug, Clone)]
pub struct Game {
    pub config: Config,
    pub players: Vec<Player>,
}

impl Game {
    /// Takes the report of one driver into the tally.
    pub fn process_msg(msg: &ToGame, tally: &mut Tally)
        requires
            old(tally)@.wf(),
            msg.player_index < old(tally).player_results.len(),
        ensures
            final(tally)@ == old(tally)@.processed(msg.player_index as int, msg.content@),
            final(tally)@.wf(),
    {
        let index = msg.player_index;
        match &msg.content {
            ToGameContent::GameOver(over) => {
                let mut i: usize = 0;
                while i < tally.player_results.len()
                    invariant
                        i <= tally.player_results.len(),
                        tally.player_results.len() == old(tally).player_results.len(),
                        tally.game_loops == old(tally).game_loops,
                        tally.frame_times == old(tally).frame_times,
                        tally.tags == old(tally).tags,
                        forall|k: int|
                            0 <= k < i ==> tally.player_results@[k] == old(tally)@.filled(
                                over.results@,
                            )[k],
                        forall|k: int|
                            i <= k < tally.player_results.len() ==> tally.player_results@[k] == old(
                                tally,
                            ).player_results@[k],
                    decreases tally.player_results.len() - i,
                {
                    if tally.player_results[i].is_none() && i < over.results.len() {
                        tally.player_results.set(i, Some(over.results[i]));
                    }
                    i += 1;
                }
                assert(tally.player_results@ =~= old(tally)@.filled(over.results@));
                tally.game_loops = over.game_loops;
                tally.frame_times.set(index, over.frame_time);
                let ghost before = tally.tags.deep_view();
                tally.tags.set(index, copy_tags(&over.tags));
                assert(tally.tags.deep_view() =~= before.update(
                    index as int,
                    over.tags.deep_view(),
                ));
            },
            ToGameContent::LeftGame => {
                tally.player_results.set(index, Some(PlayerResult::Defeat));
            },
            ToGameContent::QuitBeforeLeave => {
                tally.player_results.set(index, Some(PlayerResult::Defeat));
            },
            ToGameContent::SC2UnexpectedConnectionClose => {
                Game::record_crash(tally, index, PlayerResult::SC2Crash);
            },
            ToGameContent::UnexpectedConnectionClose => {
                Game::record_crash(tally, index, PlayerResult::Crash);
            },
        }
    }

    /// Records that the bot or the engine of the player at `index` has
    /// vanished: that player gets the outcome `crash`, every player without
    /// an outcome a victory.
    pub fn record_crash(tally: &mut Tally, index: usize, crash: PlayerResult)
        requires
            index < old(tally).player_results.len(),
        ensures
            final(tally)@ == (TallyView {
                player_results: old(tally)@.crashed(index as int, crash),
                ..old(tally)@
            }),
    {
        let mut i: usize = 0;
        while i < tally.player_results.len()
            invariant
                i <= tally.player_results.len(),
                tally.player_results.len() == old(tally).player_results.len(),
                tally.game_loops == old(tally).game_loops,
                tally.frame_times == old(tally).frame_times,
                tally.tags == old(tally).tags,
                forall|k: int|
                    0 <= k < i ==> tally.player_results@[k] == old(tally)@.crashed(
                        index as int,
                        crash,
                    )[k],
                forall|k: int|
                    i <= k < tally.player_results.len() ==> tally.player_results@[k] == old(
                        tally,
                    ).player_results@[k],
            decreases tally.player_results.len() - i,
        {
            if i == index {
                tally.player_results.set(i, Some(crash));
            } else if tally.player_results[i].is_none() {
                tally.player_results.set(i, Some(PlayerResult::Victory));
            }
            i += 1;
        }
        assert(tally.player_results@ =~= old(tally)@.crashed(index as int, crash));
    }

    /// Whether the event can be taken with a tally of `players` players: a
    /// report names one of the players.
    pub open spec fn admits(players: nat, event: GameEvent) -> bool {
        event matches GameEvent::Player(msg) ==> msg.player_index < players
    }

    /// The result of a game that runs from the tally `tally` on through the
    /// events `events`, as far as they decide it: the game ends when every
    /// player has an outcome, or at once when the supervisor asks it to
    /// quit. `None` where the events end before the game does.
    pub open spec fn outcome(tally: TallyView, events: Seq<GameEvent>) -> Option<GameResultView>
        decreases events.len(),
    {
        if tally.complete() {
            Some(tally.result())
        } else if events.len() == 0 {
            None
        } else {
            match events[0] {
                GameEvent::Supervisor(FromSupervisor::Quit) => Some(quit_result()),
                GameEvent::Player(msg) => Game::outcome(
                    tally.processed(msg.player_index as int, msg.content@),
                    events.drop_first(),
                ),
            }
        }
    }

    /// Takes one event into the tally of a game that has not ended, and
    /// gives the result where the game ends with it.
    pub fn on_event(tally: &mut Tally, event: &GameEvent) -> (result: Option<GameResult>)
        requires
            old(tally)@.wf(),
            Game::admits(old(tally).player_results@.len(), *event),
        ensures
            final(tally)@.wf(),
            match event {
                GameEvent::Supervisor(FromSupervisor::Quit) => {
                    &&& *final(tally) == *old(tally)
                    &&& result matches Some(r)
                    &&& r@ == quit_result()
                },
                GameEvent::Player(msg) => {
                    &&& final(tally)@ == old(tally)@.processed(
                        msg.player_index as int,
                        msg.content@,
                    )
                    &&& match result {
                        Some(r) => final(tally)@.complete() && r@ == final(tally)@.result(),
                        None => !final(tally)@.complete(),
                    }
                },
            },
    {
        match event {
            GameEvent::Supervisor(FromSupervisor::Quit) => Some(
                GameResult {
                    end_reason: GameEndReason::QuitRequest,
                    player_results: Vec::new(),
                    average_frame_time: None,
                    game_loops: 0,
                },
            ),
            GameEvent::Player(msg) => {
                Game::process_msg(msg, tally);
                if tally.complete() {
                    Some(tally.result())
                } else {
                    None
                }
            },
        }
    }

    /// Runs a game of `players` players through the events `events`, in
    /// order, and gives its result; `None` where the events end before the
    /// game does.
    pub fn run(players: usize, events: &Vec<GameEvent>) -> (result: Option<GameResult>)
        requires
            forall|i: int| 0 <= i < events@.len() ==> Game::admits(players as nat, #[trigger] events@[i]),
        ensures
            match result {
                Some(r) => Game::outcome(TallyView::empty(players as nat), events@) == Some(r@),
                None => Game::outcome(TallyView::empty(players as nat), events@) is None,
            },
    {
        let mut tally = Tally::new(players);
        if tally.complete() {
            return Some(tally.result());
        }
        let mut i: usize = 0;
        assert(events@.skip(0) =~= events@);
        while i < events.len()
            invariant
                i <= events.len(),
                tally@.wf(),
                tally.player_results@.len() == players,
                !tally@.complete(),
                forall|k: int|
                    0 <= k < events@.len() ==> Game::admits(players as nat, #[trigger] events@[k]),
                Game::outcome(TallyView::empty(players as nat), events@) == Game::outcome(
                    tally@,
                    events@.skip(i as int),
                ),
            decreases events.len() - i,
        {
            assert(events@.skip(i as int)[0] == events@[i as int]);
            assert(events@.skip(i as int).drop_first() =~= events@.skip(i + 1));
            let ghost before = tally@;
            let ended = Game::on_event(&mut tally, &events[i]);
            proof {
                let rest = events@.skip(i as int);
                assert(Game::outcome(before, rest) == match rest[0] {
                    GameEvent::Supervisor(FromSupervisor::Quit) => Some(quit_result()),
                    GameEvent::Player(msg) => Game::outcome(
                        before.processed(msg.player_index as int, msg.content@),
                        rest.drop_first(),
                    ),
                });
            }
            match ended {
                Some(result) => {
                    return Some(result);
                },
                None => {},
            }
            i += 1;
        }
        assert(events@.skip(events.len() as int).len() == 0);
        None
    }
}

} // verus!
