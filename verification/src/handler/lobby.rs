//! The lobby: holds the players of a match until both bots have asked to
//! join, then creates the game on the first engine and joins every engine
//! to it.
//!
//! The lobby writes the requests of the handshake and reads its answers; its
//! caller starts the engines, sends the requests and receives the answers.
//! Every join request is sent before any answer to one is awaited.

use vstd::prelude::*;
use crate::config::Config;
use crate::handler::game::Game;
use crate::handler::player::{EngineEvent, Player, PlayerData};
use crate::portconfig::PortConfig;
use crate::proto::{
    create_game_error, encode_create_game, encode_join_request, encoded_create_game,
    join_contents, join_game_outcome, new_join_request, no_ports, no_texts, option_flag,
    decodes_to_join, option_settings, options_writable, PLAYER_TYPE_PARTICIPANT,
    parse_response, parsed_response, response_contents, response_kind, set_join_text,
    JoinContents, ResponseKind, PLAYER_NAME_FIELD, RAW_AFFECTS_SELECTION_FIELD,
};
use crate::sc2::Race;
use sc2_proto::sc2api::RequestJoinGame;

verus! {

/// Which of the two players a bot is.
#[derive(Debug, Copy, Clone, PartialEq, Eq, Structural)]
pub enum PlayerNum {
    One,
    Two,
}

/// Why the handshake with an engine failed.
#[derive(Debug, Copy, Clone, PartialEq, Eq, Structural)]
pub enum LobbyError {
    /// The engine closed its connection.
    EngineClosed,
    /// The engine sent a frame that is no response.
    Undecodable,
    /// The engine answered something other than what was asked.
    UnexpectedResponse,
    /// The engine answered with an error.
    EngineError,
}

/// A step of the handshake with the engines.
#[derive(Debug, Copy, Clone, PartialEq, Eq, Structural)]
pub enum HandshakeStep {
    /// Send the request that creates the game to the engine of player 1.
    SendCreate,
    /// Await the answer of the engine of player 1 to that request.
    AwaitCreate,
    /// Send its join request to the engine of the player at this index.
    SendJoin(usize),
    /// Await the answer of the engine of the player at this index to its
    /// join request, and hand the answer to the bot.
    AwaitJoin(usize),
}

/// The steps of the handshake for the given number of players, in order: the
/// game is created on the engine of player 1; then every join request is
/// sent, player 1 first; then every answer is awaited, player 1 first.
pub open spec fn handshake_plan(players: nat) -> Seq<HandshakeStep> {
    seq![HandshakeStep::SendCreate, HandshakeStep::AwaitCreate] + Seq::new(
        players,
        |i: int| HandshakeStep::SendJoin(i as usize),
    ) + Seq::new(players, |i: int| HandshakeStep::AwaitJoin(i as usize))
}

/// In the handshake every join request is sent before the answer to any is
/// awaited, and the game is created before any engine is asked to join.
pub proof fn joins_are_sent_before_any_answer(players: nat, i: int, j: int)
    requires
        0 <= i < handshake_plan(players).len(),
        0 <= j < handshake_plan(players).len(),
        handshake_plan(players)[i] is SendJoin,
        handshake_plan(players)[j] is AwaitJoin,
    ensures
        i < j,
        1 < i,
        handshake_plan(players)[0] is SendCreate,
        handshake_plan(players)[1] is AwaitCreate,
{
}

/// The player types of a game of `players` bots: each is a participant.
pub open spec fn participants(players: nat) -> Seq<i32> {
    Seq::new(players, |i: int| PLAYER_TYPE_PARTICIPANT)
}

/// What follows in the handshake.
#[derive(Debug, Copy, Clone, PartialEq, Eq, Structural)]
pub enum HandshakeNext {
    /// Take this step.
    Take(HandshakeStep),
    /// Every step is taken: start the game.
    Start,
    /// A step has failed: end the handshake and kill every engine of the
    /// lobby.
    Abort,
}

/// What follows in the handshake of a lobby of `players` players once
/// `taken` steps are taken, the last of which succeeded or not: after a
/// step that failed the handshake is given up, and else the next step of
/// the plan is taken, or the game starts where there is none.
pub open spec fn handshake_next(players: nat, taken: nat, ok: bool) -> HandshakeNext {
    if !ok {
        HandshakeNext::Abort
    } else if taken < handshake_plan(players).len() {
        HandshakeNext::Take(handshake_plan(players)[taken as int])
    } else {
        HandshakeNext::Start
    }
}

/// A match that has not started.
#[derive(Debug, Clone)]
pub struct GameLobby {
    /// Game configuration.
    pub config: Config,
    /// The players that have joined, player 1 first.
    pub players: Vec<Player>,
}

/// What the engine is asked when the player with `data` joins a game, before
/// the ports are applied.
pub open spec fn join_fields(data: PlayerData) -> JoinContents {
    JoinContents {
        race: data.race.proto_number(),
        options: data.interface_options,
        texts: match data.name {
            Some(name) => no_texts().insert(PLAYER_NAME_FIELD, name@),
            None => no_texts(),
        },
        shared_port: None,
        server_ports: None,
        client_ports: no_ports(),
        writable: options_writable(data.interface_options),
    }
}

/// What the answer to `create_game` means for the handshake.
pub open spec fn create_game_outcome(answer: EngineEvent) -> Result<(), LobbyError> {
    match answer {
        EngineEvent::Closed => Err(LobbyError::EngineClosed),
        EngineEvent::Response(bytes) => match parsed_response(bytes@) {
            None => Err(LobbyError::Undecodable),
            Some(response) => if response_contents(response).kind != ResponseKind::CreateGame {
                Err(LobbyError::UnexpectedResponse)
            } else if response_contents(response).create_error {
                Err(LobbyError::EngineError)
            } else {
                Ok(())
            },
        },
    }
}

/// What the answer to `join_game` means for the handshake.
pub open spec fn join_game_result(answer: EngineEvent) -> Result<(), LobbyError> {
    match answer {
        EngineEvent::Closed => Err(LobbyError::EngineClosed),
        EngineEvent::Response(bytes) => match parsed_response(bytes@) {
            None => Err(LobbyError::Undecodable),
            Some(response) => if response_contents(response).kind != ResponseKind::JoinGame {
                Err(LobbyError::UnexpectedResponse)
            } else if response_contents(response).join_error {
                Err(LobbyError::EngineError)
            } else {
                Ok(())
            },
        },
    }
}

/// The player id that an answer to `join_game` assigns; none where the
/// answer is no answer to `join_game`.
pub open spec fn assigned_player_id(answer: EngineEvent) -> Option<u32> {
    match answer {
        EngineEvent::Closed => None,
        EngineEvent::Response(bytes) => match parsed_response(bytes@) {
            None => None,
            Some(response) => if response_contents(response).kind == ResponseKind::JoinGame {
                Some(response_contents(response).join_player_id)
            } else {
                None
            },
        },
    }
}

impl GameLobby {
    /// Whether `player` is the driver of a bot that has just joined this
    /// lobby under the name and race `client_data` with the request `req`:
    /// it plays the race of the configuration where races are validated and
    /// one is given, and else the race it asked for; it goes by the given
    /// name; `raw_affects_selection` is the opposite of archon mode.
    pub open spec fn admitted(
        self,
        player: Player,
        req: RequestJoinGame,
        client_data: (String, Option<Race>),
    ) -> bool {
        &&& player.data.race == (if self.config.validate_race && client_data.1 is Some {
            client_data.1->Some_0
        } else {
            Race::of_proto_number(join_contents(req).race)
        })
        &&& player.data.name matches Some(name)
        &&& name@ == client_data.0@
        &&& option_flag(player.data.interface_options, RAW_AFFECTS_SELECTION_FIELD) == Some(
            !self.config.archon,
        )
        &&& option_settings(player.data.interface_options) == option_settings(
            join_contents(req).options,
        )
        &&& forall|field: u32|
            field != RAW_AFFECTS_SELECTION_FIELD ==> option_flag(player.data.interface_options, field)
                == option_flag(join_contents(req).options, field)
        &&& join_contents(req).writable ==> options_writable(player.data.interface_options)
        &&& player.wf()
        &&& player.game_loops == 0
        &&& player.frame_time == 0
        &&& player.player_id is None
        &&& player.sc2_status is None
        &&& player.tags@.len() == 0
        &&& player.frame_time_total == 0
        &&& !player.timer_started
    }

    /// Whether the join request of every player can be encoded: the
    /// interface options of each can.
    pub open spec fn encodable(self) -> bool {
        forall|i: int|
            0 <= i < self.players@.len() ==> options_writable(
                (#[trigger] self.players@[i]).data.interface_options,
            )
    }

    /// Whether `bytes` are a join request of the player at `index`: they
    /// decode to a join request that holds the interface options, the race
    /// and the name of that player, and the ports.
    pub open spec fn is_join_of(self, bytes: Seq<u8>, portconfig: PortConfig, index: int) -> bool {
        decodes_to_join(
            bytes,
            portconfig.applied(join_fields(self.players@[index].data), self.players@.len() == 1),
        )
    }

    /// The position at which a player is added to `count` players: player 1
    /// comes first, player 2 last.
    pub open spec fn seat(player: PlayerNum, count: int) -> int {
        match player {
            PlayerNum::One => 0,
            PlayerNum::Two => count,
        }
    }

    /// An empty lobby for a match with the given configuration.
    pub fn new(config: Config) -> (lobby: GameLobby)
        ensures
            lobby.config == config,
            lobby.players@.len() == 0,
            lobby.encodable(),
    {
        GameLobby { config, players: Vec::new() }
    }

    /// Whether the lobby has any player.
    pub fn is_valid(&self) -> (valid: bool)
        ensures
            valid == (self.players@.len() > 0),
    {
        self.players.len() > 0
    }

    /// Adds the bot that sent the join request `join_req`. A request that
    /// names no race is refused, and the lobby stays as it is.
    pub fn join(
        &mut self,
        join_req: RequestJoinGame,
        client_data: (String, Option<Race>),
        player: PlayerNum,
    ) -> (joined: bool)
        ensures
            joined == Race::is_proto_number(join_contents(join_req).race),
            final(self).config == old(self).config,
            !joined ==> final(self).players == old(self).players,
            joined ==> {
                let seat = GameLobby::seat(player, old(self).players@.len() as int);
                &&& final(self).players@.len() == old(self).players@.len() + 1
                &&& final(self).players@ == old(self).players@.insert(
                    seat,
                    final(self).players@[seat],
                )
                &&& old(self).admitted(final(self).players@[seat], join_req, client_data)
            },
            old(self).encodable() && join_contents(join_req).writable ==> final(self).encodable(),
    {
        let archon = self.config.archon;
        let mut data = match PlayerData::checked_from_join_request(join_req, archon) {
            Some(data) => data,
            None => {
                return false;
            },
        };
        if self.config.validate_race {
            match client_data.1 {
                Some(race) => {
                    data.race = race;
                },
                None => {},
            }
        }
        data.name = Some(client_data.0);
        let joining = Player::new(data);
        match player {
            PlayerNum::One => self.players.insert(0, joining),
            PlayerNum::Two => self.players.push(joining),
        }
        assert(old(self).players@.push(joining) =~= old(self).players@.insert(
            old(self).players@.len() as int,
            joining,
        ));
        true
    }

    /// The bytes of the request that creates the game: on the local map at
    /// `map_path`, in real time or not as configured, with one player setup
    /// for each player in the lobby, each of the type `Participant`.
    pub fn create_game_request(&self, map_path: &str) -> (bytes: Vec<u8>)
        ensures
            bytes@ == encoded_create_game(
                map_path@,
                self.config.real_time,
                participants(self.players@.len()),
            ),
    {
        let mut player_types: Vec<i32> = Vec::new();
        let mut i: usize = 0;
        assert(player_types@ =~= participants(0));
        while i < self.players.len()
            invariant
                i <= self.players.len(),
                player_types@ == participants(i as nat),
            decreases self.players.len() - i,
        {
            player_types.push(PLAYER_TYPE_PARTICIPANT);
            i += 1;
            assert(player_types@ =~= participants(i as nat));
        }
        encode_create_game(map_path, self.config.real_time, &player_types)
    }

    /// Reads the first engine's answer to the request that creates the game.
    pub fn create_game(answer: &EngineEvent) -> (outcome: Result<(), LobbyError>)
        ensures
            outcome == create_game_outcome(*answer),
    {
        match answer {
            EngineEvent::Closed => Err(LobbyError::EngineClosed),
            EngineEvent::Response(bytes) => match parse_response(bytes.as_slice()) {
                None => Err(LobbyError::Undecodable),
                Some(response) => match response_kind(&response) {
                    ResponseKind::CreateGame => if create_game_error(&response) {
                        Err(LobbyError::EngineError)
                    } else {
                        Ok(())
                    },
                    _ => Err(LobbyError::UnexpectedResponse),
                },
            },
        }
    }

    /// The request that joins the player with `player_data` to the game: its
    /// interface options, its race, its name, and the ports.
    pub fn proto_join_game_participant(&self, portconfig: PortConfig, player_data: &PlayerData) -> (join:
        RequestJoinGame)
        ensures
            join_contents(join) == portconfig.applied(
                join_fields(*player_data),
                self.players@.len() == 1,
            ),
    {
        let mut join = new_join_request(
            player_data.interface_options.clone(),
            player_data.race.to_proto(),
        );
        portconfig.apply_proto(&mut join, self.players.len() == 1);
        match &player_data.name {
            Some(name) => {
                set_join_text(&mut join, PLAYER_NAME_FIELD, name.as_str());
            },
            None => {},
        }
        assert(join_contents(join).texts =~= join_fields(*player_data).texts);
        join
    }

    /// The join request of each player, player 1 first: each with the
    /// interface options, the race and the name of its player, and all with
    /// the same ports.
    pub fn join_requests(&self, portconfig: PortConfig) -> (requests: Vec<RequestJoinGame>)
        ensures
            requests@.len() == self.players@.len(),
            forall|i: int|
                0 <= i < requests@.len() ==> join_contents(#[trigger] requests@[i])
                    == portconfig.applied(
                    join_fields(self.players@[i].data),
                    self.players@.len() == 1,
                ),
    {
        let mut requests: Vec<RequestJoinGame> = Vec::new();
        let mut i: usize = 0;
        while i < self.players.len()
            invariant
                i <= self.players.len(),
                requests@.len() == i,
                forall|k: int|
                    0 <= k < i ==> join_contents(#[trigger] requests@[k]) == portconfig.applied(
                        join_fields(self.players@[k].data),
                        self.players@.len() == 1,
                    ),
            decreases self.players.len() - i,
        {
            requests.push(self.proto_join_game_participant(portconfig, &self.players[i].data));
            i += 1;
        }
        requests
    }

    /// The bytes of the join request of each player, player 1 first: each
    /// decodes to a join request that holds what [`GameLobby::join_requests`]
    /// gives for that player. Every request is to be sent before the answer
    /// to any is awaited. The interface options of the players are such as a
    /// decoded join request gives.
    pub fn join_all_game(&self, portconfig: PortConfig) -> (requests: Vec<Vec<u8>>)
        requires
            self.encodable(),
        ensures
            requests@.len() == self.players@.len(),
            forall|i: int|
                0 <= i < requests@.len() ==> self.is_join_of(
                    (#[trigger] requests@[i])@,
                    portconfig,
                    i,
                ),
    {
        let mut joins = self.join_requests(portconfig);
        let ghost all = joins@;
        let mut requests: Vec<Vec<u8>> = Vec::new();
        while joins.len() > 0
            invariant
                requests@.len() + joins@.len() == self.players@.len(),
                joins@.len() <= all.len(),
                all.len() == self.players@.len(),
                self.encodable(),
                forall|k: int| 0 <= k < joins@.len() ==> joins@[k] == all[k],
                forall|i: int|
                    0 <= i < all.len() ==> join_contents(#[trigger] all[i]) == portconfig.applied(
                        join_fields(self.players@[i].data),
                        self.players@.len() == 1,
                    ),
                forall|k: int|
                    0 <= k < requests@.len() ==> self.is_join_of(
                        (#[trigger] requests@[k])@,
                        portconfig,
                        joins@.len() + k,
                    ),
            decreases joins.len(),
        {
            let ghost last = joins@.len() - 1;
            let ghost before = requests@;
            match joins.pop() {
                Some(join) => {
                    assert(join == all[last]);
                    assert(options_writable(self.players@[last].data.interface_options));
                    let bytes = encode_join_request(join);
                    requests.insert(0, bytes);
                    assert forall|k: int| 0 <= k < requests@.len() implies self.is_join_of(
                        (#[trigger] requests@[k])@,
                        portconfig,
                        joins@.len() + k,
                    ) by {
                        if k > 0 {
                            assert(requests@[k] == before[k - 1]);
                        }
                    }
                },
                None => {},
            }
        }
        requests
    }

    /// What follows in the handshake once `taken` of its steps are taken,
    /// the last of which succeeded (`ok`) or failed: the next step, the
    /// start of the game, or the end of the handshake, with which every
    /// engine of the lobby is killed.
    pub fn next_step(&self, taken: usize, ok: bool) -> (next: HandshakeNext)
        ensures
            next == handshake_next(self.players@.len(), taken as nat, ok),
    {
        if !ok {
            return HandshakeNext::Abort;
        }
        let plan = self.handshake();
        if taken < plan.len() {
            HandshakeNext::Take(plan[taken])
        } else {
            HandshakeNext::Start
        }
    }

    /// Reads the answer of the engine of the player at `index` to its join
    /// request. The player id that the answer assigns is recorded with the
    /// player. Where the outcome is `Ok`, the answer goes to the bot as it
    /// came.
    pub fn join_response(&mut self, index: usize, answer: &EngineEvent) -> (outcome: Result<
        (),
        LobbyError,
    >)
        requires
            index < old(self).players@.len(),
        ensures
            outcome == join_game_result(*answer),
            final(self).config == old(self).config,
            final(self).players@.len() == old(self).players@.len(),
            forall|i: int|
                0 <= i < old(self).players@.len() && i != index ==> final(self).players@[i] == old(
                    self,
                ).players@[i],
            final(self).players@[index as int] == (Player {
                player_id: match assigned_player_id(*answer) {
                    Some(id) => Some(id),
                    None => old(self).players@[index as int].player_id,
                },
                ..old(self).players@[index as int]
            }),
            old(self).encodable() ==> final(self).encodable(),
    {
        match answer {
            EngineEvent::Closed => Err(LobbyError::EngineClosed),
            EngineEvent::Response(bytes) => match parse_response(bytes.as_slice()) {
                None => Err(LobbyError::Undecodable),
                Some(response) => match response_kind(&response) {
                    ResponseKind::JoinGame => {
                        let (player_id, error) = join_game_outcome(&response);
                        let mut player = self.players.remove(index);
                        player.player_id = Some(player_id);
                        self.players.insert(index, player);
                        assert(final(self).players@.len() == old(self).players@.len());
                        if error {
                            Err(LobbyError::EngineError)
                        } else {
                            Ok(())
                        }
                    },
                    _ => Err(LobbyError::UnexpectedResponse),
                },
            },
        }
    }

    /// The steps of the handshake, in the order in which they are taken.
    pub fn handshake(&self) -> (plan: Vec<HandshakeStep>)
        ensures
            plan@ == handshake_plan(self.players@.len()),
    {
        let count = self.players.len();
        let mut plan: Vec<HandshakeStep> = Vec::new();
        plan.push(HandshakeStep::SendCreate);
        plan.push(HandshakeStep::AwaitCreate);
        let mut i: usize = 0;
        while i < count
            invariant
                i <= count,
                plan@ == seq![HandshakeStep::SendCreate, HandshakeStep::AwaitCreate] + Seq::new(
                    i as nat,
                    |k: int| HandshakeStep::SendJoin(k as usize),
                ),
            decreases count - i,
        {
            plan.push(HandshakeStep::SendJoin(i));
            i += 1;
            assert(plan@ =~= seq![HandshakeStep::SendCreate, HandshakeStep::AwaitCreate]
                + Seq::new(i as nat, |k: int| HandshakeStep::SendJoin(k as usize)));
        }
        let ghost sent = plan@;
        let mut j: usize = 0;
        while j < count
            invariant
                j <= count,
                plan@ == sent + Seq::new(j as nat, |k: int| HandshakeStep::AwaitJoin(k as usize)),
            decreases count - j,
        {
            plan.push(HandshakeStep::AwaitJoin(j));
            j += 1;
            assert(plan@ =~= sent + Seq::new(
                j as nat,
                |k: int| HandshakeStep::AwaitJoin(k as usize),
            ));
        }
        plan
    }

    /// The game of the players in the lobby, once the handshake is done.
    pub fn start(self) -> (game: Game)
        ensures
            game.config == self.config,
            game.players == self.players,
    {
        Game { config: self.config, players: self.players }
    }
}

/// The join request that goes to the engine of a player whom the lobby
/// admitted carries `raw_affects_selection` as the opposite of the archon
/// mode of the configuration, and the race that the lobby gave the player.
pub proof fn join_request_follows_config(
    lobby: GameLobby,
    player: Player,
    req: RequestJoinGame,
    client_data: (String, Option<Race>),
    portconfig: PortConfig,
    singleplayer: bool,
)
    requires
        lobby.admitted(player, req, client_data),
    ensures
        ({
            let sent = portconfig.applied(join_fields(player.data), singleplayer);
            &&& option_flag(sent.options, RAW_AFFECTS_SELECTION_FIELD) == Some(!lobby.config.archon)
            &&& sent.race == player.data.race.proto_number()
            &&& lobby.config.validate_race && client_data.1 is Some ==> sent.race
                == client_data.1->Some_0.proto_number()
        }),
{
}

} // verus!
