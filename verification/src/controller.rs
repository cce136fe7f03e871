//! The controller: the state machine that owns a match from the moment a
//! supervisor connects until the report is sent.
//!
//! The controller holds no socket. Its caller accepts connections, reads
//! frames and polls the running game; it tells the controller what happened
//! and carries out the step that the controller returns.

use vstd::prelude::*;
use vstd::string::StringExecFns;
use crate::build_info::BuildInfo;
use crate::config::{race_of_token, Config};
use crate::handler::game::GameResult;
use crate::handler::lobby::{GameLobby, PlayerNum};
use crate::handler::player::{ClientFrame, Player};
use crate::proto::{
    encode_pong, encode_quit_response, encoded_pong, join_contents, parse_request,
    parsed_request, request_contents, request_join, request_kind, RequestKind,
};
use crate::result::{all_named, JsonResult};
use crate::sc2::Race;
use crate::server::ClientType;
use crate::text::{chars_of, contains, find_in, same_text};
use sc2_proto::sc2api::RequestJoinGame;

verus! {

/// What the supervisor asks of the controller.
#[derive(Debug, Clone, PartialEq, Eq)]
pub enum SupervisorAction {
    /// End the controller at once.
    ForceQuit,
    /// Tear the match down and reset.
    Quit,
    NoAction,
    /// The supervisor acknowledges a message.
    Received,
    /// A match configuration, as JSON text.
    Config(String),
    /// A ping with its payload.
    Ping(Vec<u8>),
}

/// [`SupervisorAction`] as a mathematical value.
pub enum SupervisorActionView {
    ForceQuit,
    Quit,
    NoAction,
    Received,
    Config(Seq<char>),
    Ping(Seq<u8>),
}

impl View for SupervisorAction {
    type V = SupervisorActionView;

    open spec fn view(&self) -> SupervisorActionView {
        match self {
            SupervisorAction::ForceQuit => SupervisorActionView::ForceQuit,
            SupervisorAction::Quit => SupervisorActionView::Quit,
            SupervisorAction::NoAction => SupervisorActionView::NoAction,
            SupervisorAction::Received => SupervisorActionView::Received,
            SupervisorAction::Config(text) => SupervisorActionView::Config(text@),
            SupervisorAction::Ping(payload) => SupervisorActionView::Ping(payload@),
        }
    }
}

/// What the supervisor's connection delivered.
#[derive(Debug, Clone, PartialEq, Eq)]
pub enum SupervisorFrame {
    Text(String),
    Ping(Vec<u8>),
    /// A binary, pong or close frame.
    Other,
    /// Receiving failed.
    Fault,
    /// The connection has ended.
    End,
}

/// What the supervisor listener does with a frame: the action it emits, if
/// any, and whether it stops listening.
#[derive(Debug, Clone, PartialEq, Eq)]
pub struct ListenerStep {
    pub emit: Option<SupervisorAction>,
    pub stop: bool,
}

/// The action that a text of the supervisor stands for, if any: `Reset`
/// asks to quit, `Received` acknowledges, a text that holds `Map` or `map`
/// is a configuration, and `Quit` asks to end at once.
pub open spec fn action_of_text(text: Seq<char>) -> Option<SupervisorActionView> {
    if text == "Reset"@ {
        Some(SupervisorActionView::Quit)
    } else if text == "Received"@ {
        Some(SupervisorActionView::Received)
    } else if contains(text, "Map"@) || contains(text, "map"@) {
        Some(SupervisorActionView::Config(text))
    } else if text == "Quit"@ {
        Some(SupervisorActionView::ForceQuit)
    } else {
        None
    }
}

/// The action that a frame of the supervisor stands for, if any. A failure
/// to receive asks to end at once.
pub open spec fn action_of_frame(frame: SupervisorFrame) -> Option<SupervisorActionView> {
    match frame {
        SupervisorFrame::Text(text) => action_of_text(text@),
        SupervisorFrame::Ping(payload) => Some(SupervisorActionView::Ping(payload@)),
        SupervisorFrame::Other => None,
        SupervisorFrame::Fault => Some(SupervisorActionView::ForceQuit),
        SupervisorFrame::End => None,
    }
}

/// Whether the listener stops after a frame: after the end of the
/// connection, and after a frame that asks to quit or to end at once.
pub open spec fn stops_after(frame: SupervisorFrame) -> bool {
    frame is End || action_of_frame(frame) == Some(SupervisorActionView::Quit) || action_of_frame(
        frame,
    ) == Some(SupervisorActionView::ForceQuit)
}

/// What the supervisor listener does with a frame.
pub fn create_supervisor_listener(frame: SupervisorFrame) -> (step: ListenerStep)
    ensures
        step.stop == stops_after(frame),
        match step.emit {
            Some(action) => action_of_frame(frame) == Some(action@),
            None => action_of_frame(frame) is None,
        },
{
    match frame {
        SupervisorFrame::Text(data) => {
            let text = chars_of(data.as_str());
            if same_text(&text, &chars_of("Reset")) {
                ListenerStep { emit: Some(SupervisorAction::Quit), stop: true }
            } else if same_text(&text, &chars_of("Received")) {
                ListenerStep { emit: Some(SupervisorAction::Received), stop: false }
            } else if find_in(&text, &chars_of("Map")) || find_in(&text, &chars_of("map")) {
                ListenerStep { emit: Some(SupervisorAction::Config(data)), stop: false }
            } else if same_text(&text, &chars_of("Quit")) {
                ListenerStep { emit: Some(SupervisorAction::ForceQuit), stop: true }
            } else {
                ListenerStep { emit: None, stop: false }
            }
        },
        SupervisorFrame::Ping(payload) => ListenerStep {
            emit: Some(SupervisorAction::Ping(payload)),
            stop: false,
        },
        SupervisorFrame::Other => ListenerStep { emit: None, stop: false },
        SupervisorFrame::Fault => ListenerStep {
            emit: Some(SupervisorAction::ForceQuit),
            stop: true,
        },
        SupervisorFrame::End => ListenerStep { emit: None, stop: true },
    }
}

/// What the controller does with a message of a bot that has not joined a
/// game.
#[derive(Debug)]
pub enum PlaylistAction {
    /// Send these bytes to the bot.
    Respond(Vec<u8>),
    /// Send these bytes to the bot, then close its connection.
    RespondQuit(Vec<u8>),
    /// Join the bot to the lobby with this request.
    JoinGame(RequestJoinGame),
    /// Close the bot's connection.
    Kick,
}

/// Unique identifier for lobby and running games.
#[derive(Debug, Clone, Copy, PartialEq, Eq, Structural, PartialOrd, Ord, Hash)]
pub struct GameId(pub u64);

impl GameId {
    /// The identifier after this one.
    pub fn next(self) -> (id: GameId)
        requires
            self.0 < u64::MAX,
        ensures
            id.0 == self.0 + 1,
    {
        GameId(self.0 + 1)
    }
}

/// Name of a bot and the race that the configuration gives it.
pub type BotData = (String, Option<Race>);

/// A state of the controller.
#[derive(Debug, Clone, Copy, PartialEq, Eq, Structural)]
pub enum Phase {
    /// No supervisor is bound.
    Idle,
    /// A supervisor is bound and has sent no configuration.
    Configuring,
    /// The configuration is there and no bot has asked to join.
    Ready,
    /// One bot has asked to join.
    Assembling,
    /// Both bots have asked to join and the game is on.
    Running,
}

/// What the controller does with a new connection.
#[derive(Debug, Clone, PartialEq, Eq)]
pub enum ConnectionStep {
    /// Bind the connection as the supervisor, in place of the one bound
    /// before where `replaced` says so, and send it `greeting`.
    Supervisor { replaced: bool, greeting: String },
    /// Keep the connection as that of a bot and send `notice` to the
    /// supervisor.
    Enrolled { notice: String },
    /// Close the connection.
    TurnedAway,
}

/// What the controller does with an action of the supervisor.
#[derive(Debug, Clone, PartialEq, Eq)]
pub enum SupervisorStep {
    /// Tell the game to quit, end the engines of the lobby, close the
    /// connections of the bots, send `reply` and drop the supervisor.
    Reset { reply: String },
    /// Read the configuration from this text and hand it to
    /// [`Controller::set_config`].
    ReadConfig(String),
    /// Leave the main loop.
    Stop,
    /// Answer with a pong that carries this payload.
    Pong(Vec<u8>),
    /// Do nothing.
    Nothing,
}

/// What came of a bot's request to join.
#[derive(Debug, Clone)]
pub enum JoinStep {
    /// The bot had asked to join before: its connection is closed.
    Dropped,
    /// There is no configuration, so no lobby: the connection is closed.
    NoLobby,
    /// The bot goes by a name that the configuration does not know: the
    /// connection is closed.
    UnknownBot,
    /// The request names no race: the connection is closed.
    Refused,
    /// The bot is in the lobby, as the first: start its engine.
    Waiting,
    /// The bot is in the lobby, as the second, at the index `seat` of its
    /// players: start its engine, run the handshake with this lobby and
    /// start the game.
    Start { lobby: GameLobby, seat: usize },
}

/// What a read of a bot's connection gave, without waiting.
#[derive(Debug, Clone, PartialEq, Eq)]
pub enum Polled {
    /// No frame is ready.
    Nothing,
    /// Receiving failed.
    Fault,
    Frame(ClientFrame),
}

/// What the controller does for a bot of the playlist in one round.
#[derive(Debug, Clone)]
pub enum PlaylistUpdate {
    /// Nothing.
    Idle,
    /// Close the bot's connection; the bot is gone from the playlist.
    Closed,
    /// Send these bytes to the bot.
    Respond(Vec<u8>),
    /// Send these bytes to the bot, then close its connection; the bot is
    /// gone from the playlist.
    RespondQuit(Vec<u8>),
    /// The bot asked to join, and is gone from the playlist.
    Joined(JoinStep),
}

/// A bot that has connected and not joined a game.
#[derive(Debug, Clone)]
pub struct Enrolled {
    /// Name of the bot.
    pub name: String,
    /// The race that the configuration gives the bot.
    pub race: Option<Race>,
    /// Whether the bot has asked to join.
    pub join_requested: bool,
}

/// State of the controller.
#[derive(Debug, Clone)]
pub struct Controller {
    /// The bots that have connected and not joined a game.
    pub clients: Vec<Enrolled>,
    /// Whether a supervisor is bound.
    pub supervisor: bool,
    /// Game configuration received from the supervisor.
    pub config: Option<Config>,
    /// Pre-game lobby.
    pub lobby: Option<GameLobby>,
    /// Whether a game is running.
    pub game: bool,
    /// Bots enrolled since the last reset.
    pub connected_clients: usize,
    pub light_mode: bool,
}

/// The text that greets a supervisor.
pub open spec fn greeting_text() -> Seq<char> {
    "{\"Status\":\"Connected\"}"@
}

/// The text that tells the supervisor of a bot.
pub open spec fn enrolled_text() -> Seq<char> {
    "{\"Bot\":\"Connected\"}"@
}

/// The text that acknowledges a configuration.
pub open spec fn config_received_text() -> Seq<char> {
    "{\"Config\":\"Received\"}"@
}

/// The text that tells the supervisor of a reset.
pub open spec fn reset_text() -> Seq<char> {
    "Reset"@
}

/// What the controller does with a decoded request of a bot that is in no
/// game, given the build of the engine: a `quit` is answered and the bot let
/// go; a `ping` is answered with the version and the builds of the engine
/// and an empty data version; a `join_game` joins the bot; anything else
/// gets the bot kicked.
pub open spec fn playlist_step(kind: RequestKind, build: BuildInfo) -> PlaylistStep {
    match kind {
        RequestKind::Quit => PlaylistStep::RespondQuit(seq![0x42u8, 0x00u8]),
        RequestKind::Ping => PlaylistStep::Respond(
            encoded_pong(build.version@, build.base_build, build.data_build, Seq::empty()),
        ),
        RequestKind::JoinGame => PlaylistStep::JoinGame,
        _ => PlaylistStep::Kick,
    }
}

/// [`PlaylistAction`] as a mathematical value, without the join request.
pub enum PlaylistStep {
    Respond(Seq<u8>),
    RespondQuit(Seq<u8>),
    JoinGame,
    Kick,
}

impl PlaylistAction {
    /// The action as a mathematical value, without the join request.
    pub open spec fn step(self) -> PlaylistStep {
        match self {
            PlaylistAction::Respond(bytes) => PlaylistStep::Respond(bytes@),
            PlaylistAction::RespondQuit(bytes) => PlaylistStep::RespondQuit(bytes@),
            PlaylistAction::JoinGame(_) => PlaylistStep::JoinGame,
            PlaylistAction::Kick => PlaylistStep::Kick,
        }
    }
}

impl Controller {
    /// At most two bots are enrolled, and a lobby that waits holds one
    /// player, whose join request can be encoded.
    pub open spec fn wf(&self) -> bool {
        &&& self.clients@.len() <= self.connected_clients
        &&& self.connected_clients <= 2
        &&& self.lobby matches Some(lobby) ==> lobby.players@.len() == 1 && lobby.encodable()
    }

    /// The state of the controller.
    pub open spec fn phase(&self) -> Phase {
        if !self.supervisor {
            Phase::Idle
        } else if self.config is None {
            Phase::Configuring
        } else if self.game {
            Phase::Running
        } else if self.lobby is Some {
            Phase::Assembling
        } else {
            Phase::Ready
        }
    }

    /// Whether this is the state after a reset of `before`: no bots, no
    /// configuration, no lobby and no game; the supervisor and the light
    /// mode stay.
    pub open spec fn is_reset_of(&self, before: Controller) -> bool {
        &&& self.clients@.len() == 0
        &&& self.config is None
        &&& self.lobby is None
        &&& !self.game
        &&& self.connected_clients == 0
        &&& self.supervisor == before.supervisor
        &&& self.light_mode == before.light_mode
    }

    /// A controller without supervisor, configuration, bots or game.
    pub fn new() -> (controller: Controller)
        ensures
            controller.wf(),
            controller.phase() == Phase::Idle,
            controller.clients@.len() == 0,
            controller.config is None,
            controller.lobby is None,
            !controller.game,
            controller.connected_clients == 0,
            !controller.light_mode,
    {
        Controller {
            clients: Vec::new(),
            supervisor: false,
            config: None,
            lobby: None,
            game: false,
            connected_clients: 0,
            light_mode: false,
        }
    }

    /// Resets the controller for a new match.
    pub fn reset(&mut self)
        ensures
            final(self).is_reset_of(*old(self)),
            final(self).wf(),
    {
        self.clients = Vec::new();
        self.config = None;
        self.lobby = None;
        self.game = false;
        self.connected_clients = 0;
    }

    /// Whether a supervisor is bound.
    pub fn has_supervisor(&self) -> (bound: bool)
        ensures
            bound == self.supervisor,
    {
        self.supervisor
    }

    /// Whether `after` is this state with one more bot enrolled: the first
    /// since the last reset under the name and race that the configuration
    /// gives player 1, any other under those of player 2. The bot comes last
    /// in the playlist and has not asked to join.
    pub open spec fn enrolled(self, after: Controller) -> bool {
        let config = self.config->Some_0;
        let added = after.clients@.last();
        &&& after.connected_clients == self.connected_clients + 1
        &&& after.clients@.len() == self.clients@.len() + 1
        &&& after.clients@.take(self.clients@.len() as int) == self.clients@
        &&& !added.join_requested
        &&& self.connected_clients == 0 ==> added.name@ == config.player1@ && added.race
            == race_of_token(config.player1_race)
        &&& self.connected_clients != 0 ==> added.name@ == config.player2@ && added.race
            == race_of_token(config.player2_race)
        &&& after.supervisor == self.supervisor
        &&& after.config == self.config
        &&& after.lobby == self.lobby
        &&& after.game == self.game
        &&& after.light_mode == self.light_mode
    }

    /// Enrolls a bot that has connected. There is a configuration, and fewer
    /// than two bots are enrolled.
    pub fn add_client(&mut self)
        requires
            old(self).wf(),
            old(self).config is Some,
            old(self).connected_clients < 2,
        ensures
            final(self).wf(),
            old(self).enrolled(*final(self)),
    {
        let data: BotData = match &self.config {
            Some(config) => if self.connected_clients == 0 {
                (config.player1(), config.player1_bot_race())
            } else {
                (config.player2(), config.player2_bot_race())
            },
            None => (String::new(), None),
        };
        self.clients.push(Enrolled { name: data.0, race: data.1, join_requested: false });
        self.connected_clients = self.connected_clients + 1;
        assert(final(self).clients@.take(old(self).clients@.len() as int) =~= old(self).clients@);
    }

    /// Binds a supervisor, in place of the one bound before if there is
    /// one, and says whether there was one.
    pub fn add_supervisor(&mut self) -> (replaced: bool)
        ensures
            replaced == old(self).supervisor,
            final(self).supervisor,
            *final(self) == (Controller { supervisor: true, ..*old(self) }),
    {
        let replaced = self.supervisor;
        self.supervisor = true;
        replaced
    }

    /// Whether a bot that connects now can be enrolled: there is a
    /// configuration, and fewer than two bots are enrolled.
    pub fn can_enroll(&self) -> (free: bool)
        ensures
            free == (self.config is Some && self.connected_clients < 2),
    {
        self.config.is_some() && self.connected_clients < 2
    }

    /// Takes a new connection of the given kind. A supervisor is bound and
    /// greeted. A bot is turned away while no supervisor is bound or two
    /// bots are enrolled, and enrolled otherwise; no bot connects to a
    /// supervisor that has sent no configuration.
    pub fn on_connection(&mut self, kind: ClientType) -> (step: ConnectionStep)
        requires
            old(self).wf(),
            kind == ClientType::Bot && old(self).supervisor ==> old(self).config is Some,
        ensures
            final(self).wf(),
            match kind {
                ClientType::Controller => {
                    &&& *final(self) == (Controller { supervisor: true, ..*old(self) })
                    &&& step matches ConnectionStep::Supervisor { replaced, greeting }
                    &&& replaced == old(self).supervisor
                    &&& greeting@ == greeting_text()
                },
                ClientType::Bot => if !old(self).supervisor || old(self).connected_clients >= 2 {
                    *final(self) == *old(self) && step == ConnectionStep::TurnedAway
                } else {
                    &&& step matches ConnectionStep::Enrolled { notice }
                    &&& notice@ == enrolled_text()
                    &&& old(self).enrolled(*final(self))
                },
            },
    {
        match kind {
            ClientType::Controller => {
                let replaced = self.add_supervisor();
                ConnectionStep::Supervisor {
                    replaced,
                    greeting: String::from_str("{\"Status\":\"Connected\"}"),
                }
            },
            ClientType::Bot => {
                if !self.supervisor || self.connected_clients >= 2 {
                    ConnectionStep::TurnedAway
                } else {
                    self.add_client();
                    ConnectionStep::Enrolled { notice: String::from_str("{\"Bot\":\"Connected\"}") }
                }
            },
        }
    }

    /// Takes the first action that is not `NoAction` off the front of the
    /// queue of the supervisor's actions, with every `NoAction` before it;
    /// where there is none, the queue is emptied.
    pub fn recv_msg(queue: &mut Vec<SupervisorAction>) -> (action: Option<SupervisorAction>)
        ensures
            match action {
                Some(a) => exists|i: int|
                    {
                        &&& 0 <= i < old(queue)@.len()
                        &&& old(queue)@[i] == a
                        &&& !(a is NoAction)
                        &&& forall|k: int| 0 <= k < i ==> old(queue)@[k] is NoAction
                        &&& final(queue)@ == old(queue)@.skip(i + 1)
                    },
                None => {
                    &&& final(queue)@.len() == 0
                    &&& forall|k: int| 0 <= k < old(queue)@.len() ==> old(queue)@[k] is NoAction
                },
            },
    {
        let ghost mut taken: int = 0;
        while queue.len() > 0
            invariant
                0 <= taken <= old(queue)@.len(),
                queue@ == old(queue)@.skip(taken),
                forall|k: int| 0 <= k < taken ==> old(queue)@[k] is NoAction,
            decreases queue.len(),
        {
            let action = queue.remove(0);
            proof {
                assert(old(queue)@.skip(taken)[0] == old(queue)@[taken]);
                assert(old(queue)@.skip(taken).remove(0) =~= old(queue)@.skip(taken + 1));
            }
            match action {
                SupervisorAction::NoAction => {},
                other => {
                    return Some(other);
                },
            }
            proof {
                taken = taken + 1;
            }
        }
        None
    }

    /// Takes a configuration that the supervisor has sent, and gives the
    /// text that acknowledges it.
    pub fn set_config(&mut self, config: Config) -> (reply: String)
        ensures
            reply@ == config_received_text(),
            final(self).config == Some(config),
            final(self).light_mode == config.light_mode,
            final(self).clients == old(self).clients,
            final(self).supervisor == old(self).supervisor,
            final(self).lobby == old(self).lobby,
            final(self).game == old(self).game,
            final(self).connected_clients == old(self).connected_clients,
            old(self).wf() ==> final(self).wf(),
    {
        self.light_mode = config.light_mode();
        self.config = Some(config);
        String::from_str("{\"Config\":\"Received\"}")
    }

    /// Forgets the supervisor.
    pub fn drop_supervisor(&mut self)
        ensures
            *final(self) == (Controller { supervisor: false, ..*old(self) }),
    {
        self.supervisor = false;
    }

    /// Takes an action of the supervisor. A request to quit resets the
    /// controller and lets the supervisor go; a configuration is to be read
    /// and set; a request to end at once stops the main loop; a ping is
    /// answered with its payload.
    pub fn on_supervisor(&mut self, action: SupervisorAction) -> (step: SupervisorStep)
        ensures
            old(self).wf() ==> final(self).wf(),
            match action {
                SupervisorAction::Quit => {
                    &&& step matches SupervisorStep::Reset { reply }
                    &&& reply@ == reset_text()
                    &&& final(self).is_reset_of(Controller { supervisor: false, ..*old(self) })
                    &&& final(self).phase() == Phase::Idle
                },
                SupervisorAction::Config(text) => {
                    &&& step == SupervisorStep::ReadConfig(text)
                    &&& *final(self) == *old(self)
                },
                SupervisorAction::ForceQuit => {
                    &&& step == SupervisorStep::Stop
                    &&& *final(self) == *old(self)
                },
                SupervisorAction::Ping(payload) => {
                    &&& step == SupervisorStep::Pong(payload)
                    &&& *final(self) == *old(self)
                },
                _ => {
                    &&& step == SupervisorStep::Nothing
                    &&& *final(self) == *old(self)
                },
            },
    {
        match action {
            SupervisorAction::Quit => {
                self.close();
                self.drop_supervisor();
                SupervisorStep::Reset { reply: String::from_str("Reset") }
            },
            SupervisorAction::Config(text) => SupervisorStep::ReadConfig(text),
            SupervisorAction::ForceQuit => SupervisorStep::Stop,
            SupervisorAction::Ping(payload) => SupervisorStep::Pong(payload),
            _ => SupervisorStep::Nothing,
        }
    }

    /// Forgets the bot at `index` of the playlist, whose connection is
    /// closed.
    pub fn drop_client(&mut self, index: usize)
        requires
            index < old(self).clients@.len(),
        ensures
            old(self).without_client(*final(self), index as int),
            old(self).wf() ==> final(self).wf(),
    {
        let _ = self.clients.remove(index);
    }

    /// Which player the bot of the given name is, by the names of the
    /// configuration; none where the name is neither.
    pub fn player_num(config: &Config, name: &str) -> (player: Option<PlayerNum>)
        ensures
            player == (if name@ == config.player1@ {
                Some(PlayerNum::One)
            } else if name@ == config.player2@ {
                Some(PlayerNum::Two)
            } else {
                None
            }),
    {
        let text = chars_of(name);
        if same_text(&text, &chars_of(config.player1.as_str())) {
            Some(PlayerNum::One)
        } else if same_text(&text, &chars_of(config.player2.as_str())) {
            Some(PlayerNum::Two)
        } else {
            None
        }
    }

    /// Whether `after` and `step` are what comes of the join request `req`
    /// of the bot at `index` of the playlist.
    ///
    /// The bot leaves the playlist. A bot that had asked before is dropped;
    /// without a configuration there is no lobby; a bot whose name the
    /// configuration does not know, and a request that names no race, are
    /// turned down. Else the bot joins the lobby as player 1 or 2, by its
    /// name: the first to join opens the lobby and waits; with the second the
    /// lobby holds two players and is handed out.
    pub open spec fn joined(
        self,
        after: Controller,
        index: int,
        req: RequestJoinGame,
        step: JoinStep,
    ) -> bool {
        let bot = self.clients@[index];
        &&& after.clients@ == self.clients@.remove(index)
        &&& after.supervisor == self.supervisor
        &&& after.config == self.config
        &&& after.game == self.game
        &&& after.connected_clients == self.connected_clients
        &&& after.light_mode == self.light_mode
        &&& if bot.join_requested {
            step is Dropped && after.lobby == self.lobby
        } else if self.config is None {
            step is NoLobby && after.lobby == self.lobby
        } else if bot.name@ != self.config->Some_0.player1@ && bot.name@
            != self.config->Some_0.player2@ {
            step is UnknownBot && after.lobby == self.lobby
        } else if !Race::is_proto_number(join_contents(req).race) {
            step is Refused && after.lobby == self.lobby
        } else {
            let config = self.config->Some_0;
            let player = if bot.name@ == config.player1@ {
                PlayerNum::One
            } else {
                PlayerNum::Two
            };
            match self.lobby {
                None => {
                    &&& step is Waiting
                    &&& after.lobby matches Some(lobby)
                    &&& lobby.config == config
                    &&& lobby.players@.len() == 1
                    &&& lobby.admitted(lobby.players@[0], req, (bot.name, bot.race))
                },
                Some(waiting) => {
                    &&& after.lobby is None
                    &&& step matches JoinStep::Start { lobby, seat }
                    &&& seat == GameLobby::seat(player, 1)
                    &&& lobby.config == waiting.config
                    &&& lobby.players@.len() == 2
                    &&& lobby.players@[1 - seat] == waiting.players@[0]
                    &&& waiting.admitted(lobby.players@[seat as int], req, (bot.name, bot.race))
                    &&& waiting.encodable() && join_contents(req).writable ==> lobby.encodable()
                },
            }
        }
    }

    /// What the controller does with a frame of a bot that is in no game,
    /// as a mathematical value: a frame that is no request of the engine
    /// protocol gets the bot kicked.
    pub open spec fn playlist_step_of(msg: ClientFrame, build: BuildInfo) -> PlaylistStep {
        match msg {
            ClientFrame::Binary(bytes) => match parsed_request(bytes@) {
                Some(request) => playlist_step(request_contents(request).kind, build),
                None => PlaylistStep::Kick,
            },
            _ => PlaylistStep::Kick,
        }
    }

    /// Whether `after` is this state with the bot at `index` gone from the
    /// playlist and nothing else changed.
    pub open spec fn without_client(self, after: Controller, index: int) -> bool {
        &&& after.clients@ == self.clients@.remove(index)
        &&& after.supervisor == self.supervisor
        &&& after.config == self.config
        &&& after.lobby == self.lobby
        &&& after.game == self.game
        &&& after.connected_clients == self.connected_clients
        &&& after.light_mode == self.light_mode
    }

    /// Joins the bot at `index` of the playlist to the lobby with its join
    /// request `req`, which is such as a decoded request holds. The bot
    /// leaves the playlist whatever comes of it. The first bot to join opens
    /// the lobby; with the second the lobby is handed out for the handshake.
    pub fn client_join_game(&mut self, index: usize, req: RequestJoinGame) -> (step: JoinStep)
        requires
            old(self).wf(),
            index < old(self).clients@.len(),
            join_contents(req).writable,
        ensures
            final(self).wf(),
            old(self).joined(*final(self), index as int, req, step),
    {
        let bot = self.clients.remove(index);
        if bot.join_requested {
            return JoinStep::Dropped;
        }
        let player = match &self.config {
            None => {
                return JoinStep::NoLobby;
            },
            Some(config) => match Controller::player_num(config, bot.name.as_str()) {
                Some(player) => player,
                None => {
                    return JoinStep::UnknownBot;
                },
            },
        };
        match self.lobby.take() {
            Some(waiting) => {
                let mut lobby = waiting;
                if lobby.join(req, (bot.name, bot.race), player) {
                    let seat: usize = match player {
                        PlayerNum::One => 0,
                        PlayerNum::Two => 1,
                    };
                    JoinStep::Start { lobby, seat }
                } else {
                    self.lobby = Some(lobby);
                    JoinStep::Refused
                }
            },
            None => {
                let config = match &self.config {
                    Some(config) => config.clone(),
                    None => {
                        return JoinStep::NoLobby;
                    },
                };
                let mut lobby = GameLobby::new(config);
                if lobby.join(req, (bot.name, bot.race), player) {
                    self.lobby = Some(lobby);
                    JoinStep::Waiting
                } else {
                    JoinStep::Refused
                }
            },
        }
    }

    /// What the controller does with a frame of a bot that is in no game,
    /// given the build of the engine. A frame that is no request of the
    /// engine protocol gets the bot kicked.
    pub fn process_client_message(msg: &ClientFrame, build: &BuildInfo) -> (action: PlaylistAction)
        ensures
            action.step() == Controller::playlist_step_of(*msg, *build),
            action matches PlaylistAction::JoinGame(join) ==> {
                &&& msg matches ClientFrame::Binary(bytes)
                &&& parsed_request(bytes@) matches Some(request)
                &&& join == request_contents(request).join
                &&& join_contents(join).writable
            },
    {
        match msg {
            ClientFrame::Binary(bytes) => match parse_request(bytes.as_slice()) {
                Some(request) => match request_kind(&request) {
                    RequestKind::Quit => PlaylistAction::RespondQuit(encode_quit_response()),
                    RequestKind::Ping => {
                        let data_version = String::new();
                        PlaylistAction::Respond(
                            encode_pong(
                                build.version.as_str(),
                                build.base_build,
                                build.data_build,
                                data_version.as_str(),
                            ),
                        )
                    },
                    RequestKind::JoinGame => PlaylistAction::JoinGame(request_join(&request)),
                    _ => PlaylistAction::Kick,
                },
                None => PlaylistAction::Kick,
            },
            _ => PlaylistAction::Kick,
        }
    }

    /// Takes what a read of the connection of the bot at `index` of the
    /// playlist gave. Nothing changes where no frame was ready. A bot whose
    /// connection fails, a bot that is kicked and a bot that quits leave the
    /// playlist; a ping is answered; a join request joins the bot as
    /// [`Controller::client_join_game`] says.
    pub fn update_clients(&mut self, index: usize, polled: &Polled, build: &BuildInfo) -> (update:
        PlaylistUpdate)
        requires
            old(self).wf(),
            index < old(self).clients@.len(),
        ensures
            final(self).wf(),
            match polled {
                Polled::Nothing => update is Idle && *final(self) == *old(self),
                Polled::Fault => update is Closed && old(self).without_client(
                    *final(self),
                    index as int,
                ),
                Polled::Frame(msg) => match Controller::playlist_step_of(*msg, *build) {
                    PlaylistStep::Kick => update is Closed && old(self).without_client(
                        *final(self),
                        index as int,
                    ),
                    PlaylistStep::Respond(bytes) => {
                        &&& update matches PlaylistUpdate::Respond(b)
                        &&& b@ == bytes
                        &&& *final(self) == *old(self)
                    },
                    PlaylistStep::RespondQuit(bytes) => {
                        &&& update matches PlaylistUpdate::RespondQuit(b)
                        &&& b@ == bytes
                        &&& old(self).without_client(*final(self), index as int)
                    },
                    PlaylistStep::JoinGame => {
                        &&& update matches PlaylistUpdate::Joined(step)
                        &&& msg matches ClientFrame::Binary(bytes)
                        &&& parsed_request(bytes@) matches Some(request)
                        &&& old(self).joined(
                            *final(self),
                            index as int,
                            request_contents(request).join,
                            step,
                        )
                    },
                },
            },
    {
        match polled {
            Polled::Nothing => PlaylistUpdate::Idle,
            Polled::Fault => {
                self.drop_client(index);
                PlaylistUpdate::Closed
            },
            Polled::Frame(msg) => match Controller::process_client_message(msg, build) {
                PlaylistAction::Kick => {
                    self.drop_client(index);
                    PlaylistUpdate::Closed
                },
                PlaylistAction::Respond(bytes) => PlaylistUpdate::Respond(bytes),
                PlaylistAction::RespondQuit(bytes) => {
                    self.drop_client(index);
                    PlaylistUpdate::RespondQuit(bytes)
                },
                PlaylistAction::JoinGame(join) => PlaylistUpdate::Joined(
                    self.client_join_game(index, join),
                ),
            },
        }
    }

    /// Marks the game as running, once the handshake has succeeded.
    pub fn game_started(&mut self)
        ensures
            *final(self) == (Controller { game: true, ..*old(self) }),
    {
        self.game = true;
    }

    /// Takes the result of the game that has ended: gives the report for
    /// the supervisor and resets the controller, which lets the supervisor
    /// go. There is a configuration, and the result holds the outcomes of
    /// two players.
    pub fn update_games(&mut self, result: &GameResult, players: &Vec<Player>) -> (report:
        JsonResult)
        requires
            old(self).config is Some,
            result.player_results@.len() >= 2,
            all_named(players@),
        ensures
            report.reports(old(self).config->Some_0, *result, players@),
            final(self).is_reset_of(Controller { supervisor: false, ..*old(self) }),
            final(self).wf(),
            final(self).phase() == Phase::Idle,
    {
        let report = match &self.config {
            Some(config) => JsonResult::of_game(config, result, players),
            None => JsonResult::from(None, None, None, None, None, None, None, None, None, None),
        };
        self.drop_supervisor();
        self.reset();
        report
    }

    /// Ends the match at the supervisor's request: the game is told to
    /// quit, the engines of the lobby are ended and the connections of the
    /// bots are closed by the caller; the controller is reset.
    pub fn close(&mut self)
        ensures
            final(self).is_reset_of(*old(self)),
            final(self).wf(),
    {
        self.reset()
    }
}

impl Default for Controller {
    fn default() -> (controller: Controller)
        ensures
            controller.wf(),
            controller.phase() == Phase::Idle,
    {
        Controller::new()
    }
}

/// Return type of a remote update.
#[derive(Debug, Clone, Copy, PartialEq, Eq, Structural)]
pub enum RemoteUpdateStatus {
    /// Server quit requested.
    Quit,
    /// A request was processed.
    Processed,
    /// No action was taken.
    NoAction,
}

} // verus!
