//! The player driver: what one bot's proxy does with each frame that the
//! bot or its engine sends.
//!
//! The driver owns no socket and no subprocess. Its caller receives the
//! frames, hands each to the driver, and carries out the step that the
//! driver returns: reply to the bot, forward to the engine, relay to the
//! bot, or end the driver with a notice to the game runner.

use vstd::prelude::*;
use crate::config::Config;
use crate::handler::messaging::{GameOver, GameOverView, ToGameContent, ToGameContentView};
use crate::handler::obfuscation::{needs_rewrite, obfuscate_races, obfuscated, rewrite_needed};
use crate::handler::outcome::{
    all_decided, final_results, outcome_values, read_outcomes, sort_outcomes, surrender_results,
    tie_results,
};
use crate::handler::tags::{action_messages, add_chat_tags, copy_tags, merge_chats, with_chat};
use crate::proto::{
    chat_bodies, decodes_to_response, encode_response, encode_save_replay_request, encode_status_reply, encoded_status_reply,
    game_info_players, join_contents, join_options, join_race, join_text, observation_game_loop,
    observation_results, option_flag, option_settings, options_writable, parse_request,
    parse_response,
    parsed_request, parsed_response, replay_data, request_chat, request_contents,
    request_integer, request_kind, response_contents, response_kind, response_status,
    set_option_flag, text_views, PlayerInfoEntry, RequestKind, ResponseContents, ResponseKind,
    ACTION_CHAT_FIELD, MESSAGE_ID_FIELD, PLAYER_NAME_FIELD, RAW_AFFECTS_SELECTION_FIELD,
    STATUS_IN_GAME,
};
use crate::sc2::{PlayerResult, Race};
use sc2_proto::sc2api::{InterfaceOptions, RequestJoinGame};

verus! {

/// What a bot asked for when it joined, as far as the engine needs it.
#[derive(Debug, Clone)]
pub struct PlayerData {
    pub race: Race,
    pub name: Option<String>,
    pub interface_options: InterfaceOptions,
}

impl PlayerData {
    /// The data of a bot that sent the join request `req`. The interface
    /// options are those of the request, in every field, but with
    /// `raw_affects_selection` set to the opposite of `archon`. The request
    /// names a race.
    pub fn from_join_request(req: RequestJoinGame, archon: bool) -> (data: PlayerData)
        requires
            Race::is_proto_number(join_contents(req).race),
        ensures
            data.race == Race::of_proto_number(join_contents(req).race),
            data.race.proto_number() == join_contents(req).race,
            match data.name {
                Some(n) => join_contents(req).texts.contains_key(PLAYER_NAME_FIELD)
                    && join_contents(req).texts[PLAYER_NAME_FIELD] == n@,
                None => !join_contents(req).texts.contains_key(PLAYER_NAME_FIELD),
            },
            option_flag(data.interface_options, RAW_AFFECTS_SELECTION_FIELD) == Some(!archon),
            option_settings(data.interface_options) == option_settings(join_contents(req).options),
            join_contents(req).writable ==> options_writable(data.interface_options),
            forall|field: u32|
                field != RAW_AFFECTS_SELECTION_FIELD ==> option_flag(
                    data.interface_options,
                    field,
                ) == option_flag(join_contents(req).options, field),
    {
        let race = Race::from_proto(join_race(&req));
        let name = join_text(&req, PLAYER_NAME_FIELD);
        let mut interface_options = join_options(&req);
        set_option_flag(&mut interface_options, RAW_AFFECTS_SELECTION_FIELD, !archon);
        PlayerData { race, name, interface_options }
    }

    /// [`PlayerData::from_join_request`] for any join request: `None` where
    /// the request names no race.
    pub fn checked_from_join_request(req: RequestJoinGame, archon: bool) -> (data: Option<
        PlayerData,
    >)
        ensures
            data is Some <==> Race::is_proto_number(join_contents(req).race),
            data matches Some(d) ==> {
                &&& d.race == Race::of_proto_number(join_contents(req).race)
                &&& d.race.proto_number() == join_contents(req).race
                &&& option_flag(d.interface_options, RAW_AFFECTS_SELECTION_FIELD) == Some(!archon)
                &&& option_settings(d.interface_options) == option_settings(
                    join_contents(req).options,
                )
                &&& join_contents(req).writable ==> options_writable(d.interface_options)
                &&& forall|field: u32|
                    field != RAW_AFFECTS_SELECTION_FIELD ==> option_flag(d.interface_options, field)
                        == option_flag(join_contents(req).options, field)
            },
    {
        let number = join_race(&req);
        if 1 <= number && number <= 4 {
            Some(PlayerData::from_join_request(req, archon))
        } else {
            None
        }
    }
}

/// How much of a unit a player sees.
#[derive(Debug, Copy, Clone, PartialEq, Eq, Structural)]
pub enum Visibility {
    Hidden,
    Fogged,
    Visible,
    FullHidden,
}

impl Default for Visibility {
    fn default() -> (visibility: Visibility)
        ensures
            visibility == Visibility::Hidden,
    {
        Visibility::Hidden
    }
}

/// Mean time per game loop: the total divided by the number of loops, and 0
/// where no loop was played.
pub open spec fn mean_frame_time(total: u64, loops: u32) -> u64 {
    if loops == 0 {
        0
    } else {
        total / (loops as u64)
    }
}

/// Executable form of [`mean_frame_time`].
pub fn average_frame_time(total: u64, loops: u32) -> (mean: u64)
    ensures
        mean == mean_frame_time(total, loops),
        loops == 0 ==> mean == 0,
        mean <= total,
{
    if loops == 0 {
        0
    } else {
        total / (loops as u64)
    }
}

/// Why a driver gives up without a notice to the game runner.
#[derive(Debug, Clone, Copy, PartialEq, Eq, Structural)]
pub enum AbortReason {
    /// A frame is no message of the engine protocol.
    Undecodable,
    /// The engine reported an outcome that decides nothing.
    UndecidedOutcome,
    /// The engine has assigned no player id, or one that is neither 1 nor 2.
    NoPlayerId,
}

/// How the engine subprocess is ended when the driver ends.
#[derive(Debug, Clone, Copy, PartialEq, Eq, Structural)]
pub enum EngineEnd {
    /// Kill the subprocess.
    Kill,
    /// Kill the subprocess if it still runs, and await its exit.
    Wait,
}

/// Whether the replay is saved when the driver ends, and when.
#[derive(Debug, Clone, Copy, PartialEq, Eq, Structural)]
pub enum ReplayOrder {
    /// No replay is saved.
    Skip,
    /// The replay is saved, then the game runner is told.
    BeforeNotice,
    /// The game runner is told, then the replay is saved.
    AfterNotice,
}

/// How a driver ends.
#[derive(Debug, Clone, PartialEq, Eq)]
pub struct Finish {
    pub replay: ReplayOrder,
    /// What the game runner is told.
    pub notice: ToGameContent,
    pub end: EngineEnd,
}

/// [`Finish`] as a mathematical value.
pub struct FinishView {
    pub replay: ReplayOrder,
    pub notice: ToGameContentView,
    pub end: EngineEnd,
}

impl View for Finish {
    type V = FinishView;

    open spec fn view(&self) -> FinishView {
        FinishView { replay: self.replay, notice: self.notice@, end: self.end }
    }
}

/// What the driver does after a frame of the bot.
#[derive(Debug, Clone, PartialEq, Eq)]
pub enum ClientStep {
    /// Send these bytes to the bot and await its next request; the engine
    /// sees nothing.
    Reply(Vec<u8>),
    /// Send the request to the engine as it came, and await the answer.
    Forward,
    /// End the driver.
    Finish(Finish),
    /// Give up.
    Abort(AbortReason),
}

/// [`ClientStep`] as a mathematical value.
pub enum ClientStepView {
    Reply(Seq<u8>),
    Forward,
    Finish(FinishView),
    Abort(AbortReason),
}

impl View for ClientStep {
    type V = ClientStepView;

    open spec fn view(&self) -> ClientStepView {
        match self {
            ClientStep::Reply(bytes) => ClientStepView::Reply(bytes@),
            ClientStep::Forward => ClientStepView::Forward,
            ClientStep::Finish(finish) => ClientStepView::Finish(finish@),
            ClientStep::Abort(reason) => ClientStepView::Abort(*reason),
        }
    }
}

/// What the bot receives for an answer of the engine.
#[derive(Debug, Clone, PartialEq, Eq)]
pub enum Relay {
    /// The answer as it came, byte for byte.
    Verbatim,
    /// These bytes in place of the answer.
    Rewritten(Vec<u8>),
}

/// What the driver does once an answer of the engine is relayed to the bot.
#[derive(Debug, Clone, PartialEq, Eq)]
pub enum After {
    /// Await the bot's next request.
    GoOn,
    /// End the driver.
    Finish(Finish),
    /// Give up.
    GiveUp(AbortReason),
}

/// What the driver does after a frame of the engine.
#[derive(Debug, Clone, PartialEq, Eq)]
pub enum EngineStep {
    /// Send `payload` to the bot; then do what `then` says.
    Relay { payload: Relay, then: After },
    /// End the driver.
    Finish(Finish),
    /// Give up.
    Abort(AbortReason),
}

/// What the bot's connection delivered.
#[derive(Debug, Clone, PartialEq, Eq)]
pub enum ClientFrame {
    Binary(Vec<u8>),
    Close,
    /// A text, ping or pong frame.
    Other,
}

/// How receiving from the bot's connection failed.
#[derive(Debug, Clone, Copy, PartialEq, Eq, Structural)]
pub enum ReceiveFault {
    ConnectionReset,
    ConnectionAborted,
    TimedOut,
    WouldBlock,
    ResetWithoutClosingHandshake,
    /// Any other failure of the transport.
    Other,
}

/// What came of waiting for the bot's next frame.
#[derive(Debug, Clone, PartialEq, Eq)]
pub enum Received {
    Frame(ClientFrame),
    Fault(ReceiveFault),
    /// The connection has ended.
    End,
    /// The bot sent nothing within the time allowed per frame.
    Late,
}

/// What the bot did, as the driver sees it.
#[derive(Debug, Clone, PartialEq, Eq)]
pub enum ClientEvent {
    /// The bot sent a request.
    Request(Vec<u8>),
    /// The bot is gone: it closed the connection, lost it, or is late.
    Closed,
}

/// What the engine did, as the driver sees it.
#[derive(Debug, Clone, PartialEq, Eq)]
pub enum EngineEvent {
    /// The engine sent an answer.
    Response(Vec<u8>),
    /// The engine closed its connection.
    Closed,
}

/// The event that a receive stands for. A frame that is neither binary nor a
/// close, and a failure of the transport other than a lost connection, stand
/// for no event: the caller cannot go on.
pub fn client_event(received: Received) -> (event: Option<ClientEvent>)
    ensures
        match received {
            Received::Frame(ClientFrame::Binary(bytes)) => event == Some(
                ClientEvent::Request(bytes),
            ),
            Received::Frame(ClientFrame::Close) => event == Some(ClientEvent::Closed),
            Received::Frame(ClientFrame::Other) => event is None,
            Received::Fault(ReceiveFault::Other) => event is None,
            Received::Fault(_) => event == Some(ClientEvent::Closed),
            Received::End => event == Some(ClientEvent::Closed),
            Received::Late => event == Some(ClientEvent::Closed),
        },
{
    match received {
        Received::Frame(ClientFrame::Binary(bytes)) => Some(ClientEvent::Request(bytes)),
        Received::Frame(ClientFrame::Close) => Some(ClientEvent::Closed),
        Received::Frame(ClientFrame::Other) => None,
        Received::Fault(ReceiveFault::Other) => None,
        Received::Fault(_) => Some(ClientEvent::Closed),
        Received::End => Some(ClientEvent::Closed),
        Received::Late => Some(ClientEvent::Closed),
    }
}

/// State of one player's driver.
#[derive(Debug, Clone)]
pub struct Player {
    /// What the bot asked for when it joined.
    pub data: PlayerData,
    /// Game loop of the last observation.
    pub game_loops: u32,
    /// Mean time the bot took per game loop, in microseconds.
    pub frame_time: u64,
    /// The player id that the engine assigned.
    pub player_id: Option<u32>,
    /// Protocol number of the status that the engine last gave.
    pub sc2_status: Option<i32>,
    /// Tags the bot sent by chat, first sent first, each once.
    pub tags: Vec<String>,
    /// Time the bot took for its requests so far, in microseconds.
    pub frame_time_total: u64,
    /// Whether an answer has been relayed, so that the bot's next request is
    /// timed.
    pub timer_started: bool,
}

/// The id that a request carries: the integer under the id field, cut to 32
/// bits, and 0 where there is none.
pub open spec fn id_of(integers: Map<u32, u64>) -> u32 {
    if integers.contains_key(MESSAGE_ID_FIELD) {
        (integers[MESSAGE_ID_FIELD] % 0x1_0000_0000) as u32
    } else {
        0
    }
}

/// `order` where a replay path is configured, and no replay otherwise.
pub open spec fn replay_order(config: Config, order: ReplayOrder) -> ReplayOrder {
    if config.replay_path@.len() == 0 {
        ReplayOrder::Skip
    } else {
        order
    }
}

impl Player {
    /// The tags are pairwise different.
    pub open spec fn wf(&self) -> bool {
        self.tags.deep_view().no_duplicates()
    }

    /// Time taken so far, once a request has come after `elapsed`
    /// microseconds: the time is counted from the first relayed answer on,
    /// and the sum stops at the largest number.
    pub open spec fn total_after(self, elapsed: u64) -> u64 {
        if !self.timer_started {
            self.frame_time_total
        } else if self.frame_time_total + elapsed > u64::MAX {
            u64::MAX
        } else {
            (self.frame_time_total + elapsed) as u64
        }
    }

    /// What the driver does with a request of the given kind and id. Where
    /// debugging is disabled, a debug request is answered with a response
    /// that holds the id of the request and the status `in_game`.
    pub open spec fn request_step(self, config: Config, kind: RequestKind, id: u32)
        -> ClientStepView {
        if config.disable_debug && kind == RequestKind::Debug {
            ClientStepView::Reply(encoded_status_reply(STATUS_IN_GAME, MESSAGE_ID_FIELD, id))
        } else if kind == RequestKind::LeaveGame {
            match self.player_id {
                Some(player_id) if 1 <= player_id <= 2 => ClientStepView::Finish(
                    FinishView {
                        replay: replay_order(config, ReplayOrder::BeforeNotice),
                        notice: ToGameContentView::GameOver(
                            GameOverView {
                                results: surrender_results(player_id),
                                game_loops: self.game_loops,
                                frame_time: self.frame_time,
                                tags: self.tags.deep_view(),
                            },
                        ),
                        end: EngineEnd::Kill,
                    },
                ),
                _ => ClientStepView::Abort(AbortReason::NoPlayerId),
            }
        } else {
            ClientStepView::Forward
        }
    }

    /// The game loop after an answer of the given kind.
    pub open spec fn loops_after(self, kind: ResponseKind, game_loop: u32) -> u32 {
        if kind == ResponseKind::Observation {
            game_loop
        } else {
            self.game_loops
        }
    }

    /// The mean frame time after an answer of the given kind.
    pub open spec fn frame_time_after(self, kind: ResponseKind, game_loop: u32) -> u64 {
        if kind == ResponseKind::Observation || kind == ResponseKind::Quit {
            mean_frame_time(self.frame_time_total, self.loops_after(kind, game_loop))
        } else {
            self.frame_time
        }
    }

    /// How the driver goes on once an answer of the given kind has been
    /// relayed to the bot: it ends, or goes on (`None`), or gives up.
    pub open spec fn response_step(
        self,
        config: Config,
        kind: ResponseKind,
        game_loop: u32,
        results: Seq<(u32, i32)>,
    ) -> Result<Option<FinishView>, AbortReason> {
        if kind == ResponseKind::Quit {
            Ok(
                Some(
                    FinishView {
                        replay: replay_order(config, ReplayOrder::BeforeNotice),
                        notice: ToGameContentView::QuitBeforeLeave,
                        end: EngineEnd::Wait,
                    },
                ),
            )
        } else if kind == ResponseKind::Observation && results.len() > 0 {
            if all_decided(results) {
                Ok(
                    Some(
                        FinishView {
                            replay: replay_order(config, ReplayOrder::AfterNotice),
                            notice: ToGameContentView::GameOver(
                                GameOverView {
                                    results: final_results(results),
                                    game_loops: game_loop,
                                    frame_time: mean_frame_time(self.frame_time_total, game_loop),
                                    tags: self.tags.deep_view(),
                                },
                            ),
                            end: EngineEnd::Kill,
                        },
                    ),
                )
            } else {
                Err(AbortReason::UndecidedOutcome)
            }
        } else if kind == ResponseKind::Observation && game_loop > config.max_game_time {
            Ok(
                Some(
                    FinishView {
                        replay: replay_order(config, ReplayOrder::BeforeNotice),
                        notice: ToGameContentView::GameOver(
                            GameOverView {
                                results: tie_results(),
                                game_loops: game_loop,
                                frame_time: mean_frame_time(self.frame_time_total, game_loop),
                                tags: self.tags.deep_view(),
                            },
                        ),
                        end: EngineEnd::Kill,
                    },
                ),
            )
        } else {
            Ok(None)
        }
    }

    /// The driver of a bot that has joined with `data`, before the game.
    pub fn new(data: PlayerData) -> (player: Player)
        ensures
            player.wf(),
            player.data == data,
            player.game_loops == 0,
            player.frame_time == 0,
            player.player_id is None,
            player.sc2_status is None,
            player.tags@.len() == 0,
            player.frame_time_total == 0,
            !player.timer_started,
    {
        let player = Player {
            data,
            game_loops: 0,
            frame_time: 0,
            player_id: None,
            sc2_status: None,
            tags: Vec::new(),
            frame_time_total: 0,
            timer_started: false,
        };
        assert(player.tags.deep_view() =~= Seq::<Seq<char>>::empty());
        player
    }

    /// The name of the bot.
    pub fn player_name(&self) -> (name: &Option<String>)
        ensures
            *name == self.data.name,
    {
        &self.data.name
    }
}

/// `order` where a replay path is configured, and no replay otherwise.
pub fn replay_choice(config: &Config, order: ReplayOrder) -> (choice: ReplayOrder)
    ensures
        choice == replay_order(*config, order),
{
    if config.replay_path.as_str().is_empty() {
        ReplayOrder::Skip
    } else {
        order
    }
}

/// Seconds a bot may take for its next request: the configured number,
/// read as an unsigned number where it is negative.
pub fn frame_timeout_secs(config: &Config) -> (seconds: u64)
    ensures
        config.max_frame_time >= 0 ==> seconds == config.max_frame_time,
        config.max_frame_time < 0 ==> seconds == 0x1_0000_0000_0000_0000 + config.max_frame_time,
{
    let seconds: i32 = config.max_frame_time;
    if seconds >= 0 {
        seconds as u64
    } else {
        u64::MAX - ((-(seconds as i64)) as u64 - 1)
    }
}

/// The bytes of the request that asks the engine for the replay.
pub fn replay_request() -> (bytes: Vec<u8>)
    ensures
        bytes@ == seq![0x7au8, 0x00u8],
{
    encode_save_replay_request()
}

/// The replay that is to be written to `path`, given what the engine
/// answered to the request for it: none where no path is configured, where
/// the engine is gone, or where the answer holds no replay.
pub fn save_replay(path: &str, answer: &EngineEvent) -> (replay: Option<Vec<u8>>)
    ensures
        match replay {
            Some(data) => {
                &&& path@.len() > 0
                &&& answer matches EngineEvent::Response(bytes)
                &&& parsed_response(bytes@) matches Some(r)
                &&& response_contents(r).kind == ResponseKind::SaveReplay
                &&& data@ == response_contents(r).replay
            },
            None => {
                ||| path@.len() == 0
                ||| answer is Closed
                ||| (answer matches EngineEvent::Response(bytes) && match parsed_response(bytes@) {
                    Some(r) => response_contents(r).kind != ResponseKind::SaveReplay,
                    None => true,
                })
            },
        },
{
    if path.is_empty() {
        return None;
    }
    match answer {
        EngineEvent::Closed => None,
        EngineEvent::Response(bytes) => match parse_response(bytes.as_slice()) {
            None => None,
            Some(response) => match response_kind(&response) {
                ResponseKind::SaveReplay => Some(replay_data(&response)),
                _ => None,
            },
        },
    }
}

impl Player {
    /// Whether `after` is this state with only the time taken and the tags
    /// changed.
    pub open spec fn same_but_time_and_tags(self, after: Player) -> bool {
        &&& after.data == self.data
        &&& after.game_loops == self.game_loops
        &&& after.frame_time == self.frame_time
        &&& after.player_id == self.player_id
        &&& after.sc2_status == self.sc2_status
        &&& after.timer_started == self.timer_started
    }

    /// Whether `after` is this state once an answer of the given kind and
    /// status has been relayed: the status is kept, the timer runs, an
    /// observation sets the game loop, and an observation or a `quit` answer
    /// sets the mean frame time.
    pub open spec fn relayed(
        self,
        after: Player,
        kind: ResponseKind,
        status: i32,
        game_loop: u32,
    ) -> bool {
        &&& after.data == self.data
        &&& after.player_id == self.player_id
        &&& after.sc2_status == Some(status)
        &&& after.tags == self.tags
        &&& after.frame_time_total == self.frame_time_total
        &&& after.timer_started
        &&& after.game_loops == self.loops_after(kind, game_loop)
        &&& after.frame_time == self.frame_time_after(kind, game_loop)
    }

    /// Takes a request of the bot that has been decoded: its kind, its id
    /// and its chat entries, with the microseconds since the last answer was
    /// relayed.
    ///
    /// A debug request is answered at once where debugging is disabled; a
    /// `leave_game` request ends the driver with a defeat; any other request
    /// goes to the engine, and the tags of its chat entries are kept.
    pub fn on_request(
        &mut self,
        config: &Config,
        kind: RequestKind,
        id: u32,
        chat: &Vec<Option<String>>,
        elapsed: u64,
    ) -> (step: ClientStep)
        requires
            old(self).wf(),
        ensures
            step@ == old(self).request_step(*config, kind, id),
            final(self).wf(),
            old(self).same_but_time_and_tags(*final(self)),
            final(self).frame_time_total == old(self).total_after(elapsed),
            final(self).tags.deep_view() == (if step is Forward {
                with_chat(old(self).tags.deep_view(), text_views(chat@))
            } else {
                old(self).tags.deep_view()
            }),
    {
        if self.timer_started {
            self.frame_time_total = self.frame_time_total.saturating_add(elapsed);
        }
        let debug = match kind {
            RequestKind::Debug => config.disable_debug,
            _ => false,
        };
        let leave = match kind {
            RequestKind::LeaveGame => true,
            _ => false,
        };
        if debug {
            ClientStep::Reply(encode_status_reply(STATUS_IN_GAME, MESSAGE_ID_FIELD, id))
        } else if leave {
            match self.player_id {
                Some(player_id) => {
                    if player_id == 1 || player_id == 2 {
                        let mut results: Vec<PlayerResult> = Vec::new();
                        results.push(PlayerResult::Victory);
                        results.push(PlayerResult::Victory);
                        results.set((player_id - 1) as usize, PlayerResult::Defeat);
                        assert(results@ =~= surrender_results(player_id));
                        ClientStep::Finish(
                            Finish {
                                replay: replay_choice(config, ReplayOrder::BeforeNotice),
                                notice: ToGameContent::GameOver(
                                    GameOver {
                                        results,
                                        game_loops: self.game_loops,
                                        frame_time: self.frame_time,
                                        tags: copy_tags(&self.tags),
                                    },
                                ),
                                end: EngineEnd::Kill,
                            },
                        )
                    } else {
                        ClientStep::Abort(AbortReason::NoPlayerId)
                    }
                },
                None => ClientStep::Abort(AbortReason::NoPlayerId),
            }
        } else {
            add_chat_tags(&mut self.tags, chat);
            ClientStep::Forward
        }
    }

    /// Takes what the bot did: a request after `elapsed` microseconds, or
    /// its disappearance.
    ///
    /// A bot that is gone ends the driver with the notice of an unexpected
    /// close. A frame that is no request makes the driver give up. A request
    /// is handled as [`Player::on_request`] says, with the kind, id and chat
    /// entries that it decodes to.
    pub fn on_client(&mut self, config: &Config, event: &ClientEvent, elapsed: u64) -> (step:
        ClientStep)
        requires
            old(self).wf(),
        ensures
            final(self).wf(),
            match event {
                ClientEvent::Closed => {
                    &&& *final(self) == *old(self)
                    &&& step@ == ClientStepView::Finish(
                        FinishView {
                            replay: ReplayOrder::Skip,
                            notice: ToGameContentView::UnexpectedConnectionClose,
                            end: EngineEnd::Kill,
                        },
                    )
                },
                ClientEvent::Request(bytes) => match parsed_request(bytes@) {
                    None => {
                        &&& *final(self) == *old(self)
                        &&& step@ == ClientStepView::Abort(AbortReason::Undecodable)
                    },
                    Some(request) => {
                        let contents = request_contents(request);
                        &&& step@ == old(self).request_step(
                            *config,
                            contents.kind,
                            id_of(contents.integers),
                        )
                        &&& old(self).same_but_time_and_tags(*final(self))
                        &&& final(self).frame_time_total == old(self).total_after(elapsed)
                        &&& final(self).tags.deep_view() == (if step is Forward {
                            with_chat(
                                old(self).tags.deep_view(),
                                action_messages(chat_bodies(contents, ACTION_CHAT_FIELD)),
                            )
                        } else {
                            old(self).tags.deep_view()
                        })
                    },
                },
            },
    {
        match event {
            ClientEvent::Closed => ClientStep::Finish(
                Finish {
                    replay: ReplayOrder::Skip,
                    notice: ToGameContent::UnexpectedConnectionClose,
                    end: EngineEnd::Kill,
                },
            ),
            ClientEvent::Request(bytes) => match parse_request(bytes.as_slice()) {
                None => ClientStep::Abort(AbortReason::Undecodable),
                Some(request) => {
                    let kind = request_kind(&request);
                    let id: u32 = match request_integer(&request, MESSAGE_ID_FIELD) {
                        Some(value) => (value % 0x1_0000_0000) as u32,
                        None => 0,
                    };
                    let chat = merge_chats(&request_chat(&request, ACTION_CHAT_FIELD));
                    self.on_request(config, kind, id, &chat, elapsed)
                },
            },
        }
    }

    /// Takes an answer of the engine that has been decoded and relayed to
    /// the bot: its kind, the status of the engine, and the game loop and
    /// outcomes that it reports.
    ///
    /// A `quit` answer ends the driver. An observation with outcomes ends it
    /// with these outcomes, ordered by player id; one past the time limit
    /// ends it with a tie. After any other answer the driver goes on.
    pub fn on_response(
        &mut self,
        config: &Config,
        kind: ResponseKind,
        status: i32,
        game_loop: u32,
        results: &Vec<(u32, i32)>,
    ) -> (then: Result<Option<Finish>, AbortReason>)
        ensures
            old(self).relayed(*final(self), kind, status, game_loop),
            match then {
                Ok(Some(finish)) => old(self).response_step(*config, kind, game_loop, results@)
                    == Ok::<Option<FinishView>, AbortReason>(Some(finish@)),
                Ok(None) => old(self).response_step(*config, kind, game_loop, results@) == Ok::<
                    Option<FinishView>,
                    AbortReason,
                >(None),
                Err(reason) => old(self).response_step(*config, kind, game_loop, results@)
                    == Err::<Option<FinishView>, AbortReason>(reason),
            },
    {
        self.timer_started = true;
        self.sc2_status = Some(status);
        match kind {
            ResponseKind::Quit => {
                self.frame_time = average_frame_time(self.frame_time_total, self.game_loops);
                Ok(
                    Some(
                        Finish {
                            replay: replay_choice(config, ReplayOrder::BeforeNotice),
                            notice: ToGameContent::QuitBeforeLeave,
                            end: EngineEnd::Wait,
                        },
                    ),
                )
            },
            ResponseKind::Observation => {
                self.game_loops = game_loop;
                self.frame_time = average_frame_time(self.frame_time_total, game_loop);
                if results.len() > 0 {
                    match read_outcomes(results) {
                        Some(entries) => {
                            let sorted = sort_outcomes(&entries);
                            Ok(
                                Some(
                                    Finish {
                                        replay: replay_choice(config, ReplayOrder::AfterNotice),
                                        notice: ToGameContent::GameOver(
                                            GameOver {
                                                results: outcome_values(&sorted),
                                                game_loops: game_loop,
                                                frame_time: self.frame_time,
                                                tags: copy_tags(&self.tags),
                                            },
                                        ),
                                        end: EngineEnd::Kill,
                                    },
                                ),
                            )
                        },
                        None => Err(AbortReason::UndecidedOutcome),
                    }
                } else if game_loop > config.max_game_time {
                    let mut results: Vec<PlayerResult> = Vec::new();
                    results.push(PlayerResult::Tie);
                    results.push(PlayerResult::Tie);
                    assert(results@ =~= tie_results());
                    Ok(
                        Some(
                            Finish {
                                replay: replay_choice(config, ReplayOrder::BeforeNotice),
                                notice: ToGameContent::GameOver(
                                    GameOver {
                                        results,
                                        game_loops: game_loop,
                                        frame_time: self.frame_time,
                                        tags: copy_tags(&self.tags),
                                    },
                                ),
                                end: EngineEnd::Kill,
                            },
                        ),
                    )
                } else {
                    Ok(None)
                }
            },
            _ => Ok(None),
        }
    }

    /// Whether `step` and the state `after` are what the driver in this
    /// state makes of the engine's `event`.
    ///
    /// An engine that is gone ends the driver with the notice of its close.
    /// A frame that is no response makes the driver give up. A `game_info`
    /// response that shows the actual race of another player is relayed
    /// rewritten: what is relayed decodes to the response with these races
    /// hidden and all else as it came. Every other response is relayed as it
    /// came, byte for byte, also where the driver gives up after it because
    /// the response reports an outcome that decides nothing. What follows the relay is as
    /// [`Player::response_step`] says.
    pub open spec fn engine_step(
        self,
        after: Player,
        config: Config,
        event: EngineEvent,
        step: EngineStep,
    ) -> bool {
        match event {
            EngineEvent::Closed => {
                &&& after == self
                &&& step matches EngineStep::Finish(finish)
                &&& finish@ == (FinishView {
                    replay: ReplayOrder::Skip,
                    notice: ToGameContentView::SC2UnexpectedConnectionClose,
                    end: EngineEnd::Kill,
                })
            },
            EngineEvent::Response(bytes) => match parsed_response(bytes@) {
                None => after == self && step == EngineStep::Abort(AbortReason::Undecodable),
                Some(response) => {
                    let contents = response_contents(response);
                    if contents.kind == ResponseKind::GameInfo && contents.players.len() > 0
                        && self.player_id is None {
                        after == self && step == EngineStep::Abort(AbortReason::NoPlayerId)
                    } else if contents.kind == ResponseKind::GameInfo && needs_rewrite(
                        contents.players,
                        self.player_id->Some_0,
                    ) {
                        &&& self.relayed(after, contents.kind, contents.status, contents.game_loop)
                        &&& step matches EngineStep::Relay { payload, then }
                        &&& then is GoOn
                        &&& payload matches Relay::Rewritten(rewritten)
                        &&& decodes_to_response(
                            rewritten@,
                            ResponseContents {
                                players: contents.players.map_values(
                                    |e: PlayerInfoEntry| obfuscated(e, self.player_id->Some_0),
                                ),
                                ..contents
                            },
                        )
                    } else {
                        &&& self.relayed(
                            after,
                            contents.kind,
                            contents.status,
                            contents.game_loop,
                        )
                        &&& step matches EngineStep::Relay { payload, then }
                        &&& payload is Verbatim
                        &&& match then {
                            After::GoOn => self.response_step(
                                config,
                                contents.kind,
                                contents.game_loop,
                                contents.results,
                            ) == Ok::<Option<FinishView>, AbortReason>(None),
                            After::Finish(finish) => self.response_step(
                                config,
                                contents.kind,
                                contents.game_loop,
                                contents.results,
                            ) == Ok::<Option<FinishView>, AbortReason>(Some(finish@)),
                            After::GiveUp(reason) => self.response_step(
                                config,
                                contents.kind,
                                contents.game_loop,
                                contents.results,
                            ) == Err::<Option<FinishView>, AbortReason>(reason),
                        }
                    }
                },
            },
        }
    }

    /// Takes what the engine did: an answer, or the close of its
    /// connection.
    pub fn on_engine(&mut self, config: &Config, event: &EngineEvent) -> (step: EngineStep)
        requires
            old(self).wf(),
        ensures
            final(self).wf(),
            old(self).engine_step(*final(self), *config, *event, step),
    {
        match event {
            EngineEvent::Closed => EngineStep::Finish(
                Finish {
                    replay: ReplayOrder::Skip,
                    notice: ToGameContent::SC2UnexpectedConnectionClose,
                    end: EngineEnd::Kill,
                },
            ),
            EngineEvent::Response(bytes) => match parse_response(bytes.as_slice()) {
                None => EngineStep::Abort(AbortReason::Undecodable),
                Some(response) => {
                    let kind = response_kind(&response);
                    let status = response_status(&response);
                    let game_loop = observation_game_loop(&response);
                    let results = observation_results(&response);
                    let rewrite = match kind {
                        ResponseKind::GameInfo => {
                            let players = game_info_players(&response);
                            if players.len() == 0 {
                                None
                            } else {
                                match self.player_id {
                                    Some(own_id) => if rewrite_needed(&players, own_id) {
                                        Some(own_id)
                                    } else {
                                        None
                                    },
                                    None => {
                                        return EngineStep::Abort(AbortReason::NoPlayerId);
                                    },
                                }
                            }
                        },
                        _ => None,
                    };
                    match rewrite {
                        Some(own_id) => {
                            let mut rewritten = response;
                            obfuscate_races(&mut rewritten, own_id);
                            let payload = encode_response(&rewritten);
                            let _ = self.on_response(config, kind, status, game_loop, &results);
                            EngineStep::Relay {
                                payload: Relay::Rewritten(payload),
                                then: After::GoOn,
                            }
                        },
                        None => {
                            let then = match self.on_response(
                                config,
                                kind,
                                status,
                                game_loop,
                                &results,
                            ) {
                                Err(reason) => After::GiveUp(reason),
                                Ok(Some(finish)) => After::Finish(finish),
                                Ok(None) => After::GoOn,
                            };
                            EngineStep::Relay { payload: Relay::Verbatim, then }
                        },
                    }
                },
            },
        }
    }
}

} // verus!
