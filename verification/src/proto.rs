//! The engine protocol, as far as the arbiter reads and writes it.
//!
//! Messages are decoded and encoded by the `protobuf` runtime with the
//! message types of `sc2_proto`. This module is the boundary to those
//! crates: it declares the message types, names what a message holds, and
//! wraps each accessor that the arbiter calls. Nothing stated here is
//! proved; every function in this module is trusted to do what its contract
//! says, and the rest of the library is verified against these contracts.
//!
//! The message types at hand cover an early revision of the protocol. The
//! fields that later revisions added (the request and response `id`, the
//! player name of a join request, the interface option
//! `raw_affects_selection`, the chat body `action_chat` of an action) travel
//! as unknown fields and are read and written by their field numbers.

use vstd::prelude::*;
use protobuf::{Message, ProtobufEnum};
use sc2_proto::common::Race as WireRace;
use sc2_proto::sc2api::{
    ActionChat, InterfaceOptions, LocalMap, PlayerSetup, PlayerType, PortSet, Request, RequestCreateGame,
    RequestJoinGame, RequestSaveReplay, Response, ResponsePing, ResponseQuit, SpatialCameraSetup,
    Status,
};

verus! {

/// A request of the engine protocol, decoded.
#[verifier::external_type_specification]
#[verifier::external_body]
pub struct ExRequest(sc2_proto::sc2api::Request);

/// A response of the engine protocol, decoded.
#[verifier::external_type_specification]
#[verifier::external_body]
pub struct ExResponse(sc2_proto::sc2api::Response);

/// The body of a request to join a game.
#[verifier::external_type_specification]
#[verifier::external_body]
pub struct ExRequestJoinGame(sc2_proto::sc2api::RequestJoinGame);

/// The interface options of a join request.
#[verifier::external_type_specification]
#[verifier::external_body]
pub struct ExInterfaceOptions(sc2_proto::sc2api::InterfaceOptions);

/// The camera setup of a feature layer or of the rendered view, as the
/// interface options hold it.
#[verifier::external_type_specification]
#[verifier::external_body]
pub struct ExSpatialCameraSetup(sc2_proto::sc2api::SpatialCameraSetup);

/// The derived `Clone` of the interface options: the copy equals the
/// options copied.
pub assume_specification[ <sc2_proto::sc2api::InterfaceOptions as Clone>::clone ](
    options: &sc2_proto::sc2api::InterfaceOptions,
) -> (copy: sc2_proto::sc2api::InterfaceOptions)
    ensures
        copy == *options,
;

/// The greatest field number that the wire format can write.
pub const MAX_FIELD_NUMBER: u32 = 0x1fff_ffff;

/// Whether `field` is a field number that the wire format can write.
pub open spec fn is_field_number(field: u32) -> bool {
    1 <= field <= MAX_FIELD_NUMBER
}

/// Whether `field` is a field number that can be written and that the
/// type of a join request does not know; it knows the numbers 1 to 6.
pub open spec fn is_join_extension(field: u32) -> bool {
    is_field_number(field) && field > 6
}

/// Whether `field` is a field number that can be written and that the
/// type of the interface options does not know; it knows the numbers 1 to
/// 4.
pub open spec fn is_option_extension(field: u32) -> bool {
    is_field_number(field) && field > 4
}

/// Whether `field` is a field number that can be written and that the
/// type of a response does not know; it knows the numbers 1 to 20, 98 and
/// 99.
pub open spec fn is_response_extension(field: u32) -> bool {
    is_field_number(field) && field > 20 && field != 98 && field != 99
}

/// Field number of `id` in a request and in a response.
pub const MESSAGE_ID_FIELD: u32 = 97;

/// Field number of `player_name` in the body of a join request.
pub const PLAYER_NAME_FIELD: u32 = 7;

/// Field number of `raw_affects_selection` in the interface options.
pub const RAW_AFFECTS_SELECTION_FIELD: u32 = 6;

/// Field number of `action_chat` in an action.
pub const ACTION_CHAT_FIELD: u32 = 6;

/// Protocol number of the status `in_game` of the engine.
pub const STATUS_IN_GAME: i32 = 3;

/// Protocol number of the player type `Participant`.
pub const PLAYER_TYPE_PARTICIPANT: i32 = 1;

/// Whether `status` is the protocol number of a status of the engine.
pub open spec fn is_status_number(status: i32) -> bool {
    1 <= status <= 6 || status == 99
}

/// Whether `player_type` is the protocol number of a player type:
/// participant (1), computer (2) or observer (3).
pub open spec fn is_player_type(player_type: i32) -> bool {
    1 <= player_type <= 3
}

/// What a request asks for, as far as the arbiter tells requests apart.
#[derive(Debug, Clone, Copy, PartialEq, Eq, Structural)]
pub enum RequestKind {
    Quit,
    Ping,
    JoinGame,
    Debug,
    LeaveGame,
    Other,
}

/// What a response answers, as far as the arbiter tells responses apart.
#[derive(Debug, Clone, Copy, PartialEq, Eq, Structural)]
pub enum ResponseKind {
    CreateGame,
    JoinGame,
    Quit,
    GameInfo,
    Observation,
    SaveReplay,
    Other,
}

/// One entry of the player list of a `game_info` response. Races are given
/// by their protocol numbers; `None` stands for a field that is not set.
#[derive(Debug, Clone, Copy, PartialEq, Eq, Structural)]
pub struct PlayerInfoEntry {
    pub player_id: u32,
    pub race_requested: Option<i32>,
    pub race_actual: Option<i32>,
}

/// The interface options that the message type knows, each as far as it
/// is set.
pub struct OptionSettings {
    pub raw: Option<bool>,
    pub score: Option<bool>,
    pub feature_layer: Option<SpatialCameraSetup>,
    pub render: Option<SpatialCameraSetup>,
}

/// What the arbiter reads of a decoded request.
pub struct RequestContents {
    /// Which request it is.
    pub kind: RequestKind,
    /// For each field number unknown to the message type, the last integer
    /// sent under it.
    pub integers: Map<u32, u64>,
    /// For each field number and each action of the request, in order: the
    /// chat bodies that the action holds under that number among the fields
    /// that its type does not know, in the order sent, each with its message
    /// where it decodes to a chat body that has one.
    pub chats: Map<u32, Seq<Seq<Option<Seq<char>>>>>,
    /// The body of the join request; the empty body where the request is no
    /// join request.
    pub join: RequestJoinGame,
}

/// What the arbiter reads of the body of a join request.
pub struct JoinContents {
    /// Protocol number of the race asked for; 0 where none is set.
    pub race: int,
    /// The interface options; empty options where none are set.
    pub options: InterfaceOptions,
    /// The last text sent under each field number unknown to the message
    /// type.
    pub texts: Map<u32, Seq<char>>,
    /// The port shared by both engines.
    pub shared_port: Option<i32>,
    /// Game port and base port of the hosting engine.
    pub server_ports: Option<(i32, i32)>,
    /// Game port and base port of each joining engine.
    pub client_ports: Seq<(i32, i32)>,
    /// Whether the request can be encoded and decoded again: every field
    /// number under which it holds a value that the message types do not
    /// know, in the request and in the messages that it holds, is one that
    /// the wire format can write and that the message type does not know.
    /// This holds of every decoded request.
    pub writable: bool,
}

/// What the arbiter reads of a decoded response.
pub struct ResponseContents {
    /// Which response it is.
    pub kind: ResponseKind,
    /// Protocol number of the status of the engine; that of `launched` (1)
    /// where the response gives none.
    pub status: i32,
    /// Whether the answer to `create_game` carries an error.
    pub create_error: bool,
    /// Whether the answer to `join_game` carries an error.
    pub join_error: bool,
    /// The player id that the answer to `join_game` assigns; 0 where none.
    pub join_player_id: u32,
    /// The players of a `game_info` response.
    pub players: Seq<PlayerInfoEntry>,
    /// The game loop of an observation; 0 where none.
    pub game_loop: u32,
    /// Player id and protocol number of the outcome, for each outcome that
    /// an observation reports.
    pub results: Seq<(u32, i32)>,
    /// The replay carried by a `save_replay` response; empty where none.
    pub replay: Seq<u8>,
    /// Whether the response can be encoded and decoded again: every field
    /// number under which it holds a value that the message types do not
    /// know, in the response and in the messages that it holds, is one that
    /// the wire format can write and that the message type does not know.
    /// This holds of every decoded response.
    pub writable: bool,
}

/// The request that `bytes` decode to; `None` where they are no request.
pub uninterp spec fn parsed_request(bytes: Seq<u8>) -> Option<Request>;

/// The response that `bytes` decode to; `None` where they are no response.
pub uninterp spec fn parsed_response(bytes: Seq<u8>) -> Option<Response>;

/// What `request` holds.
pub uninterp spec fn request_contents(request: Request) -> RequestContents;

/// What the join request `join` holds.
pub uninterp spec fn join_contents(join: RequestJoinGame) -> JoinContents;

/// What `response` holds.
pub uninterp spec fn response_contents(response: Response) -> ResponseContents;

/// The last value sent under the field number `field` of the interface
/// options, for a field unknown to the message type; `None` where there is
/// none.
pub uninterp spec fn option_flag(options: InterfaceOptions, field: u32) -> Option<bool>;

/// Whether the interface options can be encoded and decoded again: every
/// field number under which they hold a value that the message types do not
/// know, in the options and in the messages that they hold, is one that the
/// wire format can write and that the message type does not know. This
/// holds of the options of every decoded request.
pub uninterp spec fn options_writable(options: InterfaceOptions) -> bool;

/// What the interface options hold in the fields that the message type
/// knows.
pub uninterp spec fn option_settings(options: InterfaceOptions) -> OptionSettings;

/// The bytes of a `ping` response with the given engine version, builds and
/// data version.
pub uninterp spec fn encoded_pong(
    version: Seq<char>,
    base_build: u32,
    data_build: u32,
    data_version: Seq<char>,
) -> Seq<u8>;

/// The bytes of a response that holds the status with the protocol number
/// `status`, and the given id under the field number `field`.
pub uninterp spec fn encoded_status_reply(status: i32, field: u32, id: u32) -> Seq<u8>;

/// The bytes of a `create_game` request for the local map at `map_path`,
/// with one player of each of the given types, in order.
pub uninterp spec fn encoded_create_game(
    map_path: Seq<char>,
    realtime: bool,
    player_types: Seq<i32>,
) -> Seq<u8>;

/// Whether two sets of interface options hold the same: the same in the
/// fields that the message type knows, the same last value under every
/// other field number, and both or neither can be encoded.
pub open spec fn same_options(a: InterfaceOptions, b: InterfaceOptions) -> bool {
    &&& option_settings(a) == option_settings(b)
    &&& options_writable(a) == options_writable(b)
    &&& forall|field: u32| option_flag(a, field) == option_flag(b, field)
}

/// Whether `bytes` decode to a join request that holds the same as `join`.
pub open spec fn decodes_to_join(bytes: Seq<u8>, join: JoinContents) -> bool {
    &&& parsed_request(bytes) matches Some(request)
    &&& request_contents(request).kind == RequestKind::JoinGame
    &&& same_join(join_contents(request_contents(request).join), join)
}

/// Whether `bytes` decode to a response that holds `contents`.
pub open spec fn decodes_to_response(bytes: Seq<u8>, contents: ResponseContents) -> bool {
    &&& parsed_response(bytes) matches Some(response)
    &&& response_contents(response) == contents
}

/// Whether two join requests hold the same: the same race, texts and ports,
/// and the same interface options.
pub open spec fn same_join(a: JoinContents, b: JoinContents) -> bool {
    &&& a.race == b.race
    &&& same_options(a.options, b.options)
    &&& a.texts == b.texts
    &&& a.shared_port == b.shared_port
    &&& a.server_ports == b.server_ports
    &&& a.client_ports == b.client_ports
    &&& a.writable == b.writable
}

/// The empty record of texts.
pub open spec fn no_texts() -> Map<u32, Seq<char>> {
    Map::empty()
}

/// The empty list of port sets.
pub open spec fn no_ports() -> Seq<(i32, i32)> {
    Seq::empty()
}

/// The chat bodies that the actions of a request hold under the field
/// number `field`, for each action in order.
pub open spec fn chat_bodies(contents: RequestContents, field: u32) -> Seq<
    Seq<Option<Seq<char>>>,
> {
    if contents.chats.contains_key(field) {
        contents.chats[field]
    } else {
        Seq::empty()
    }
}

/// The views of the chat bodies of actions.
pub open spec fn chat_views(chats: Seq<Vec<Option<String>>>) -> Seq<Seq<Option<Seq<char>>>> {
    chats.map_values(|bodies: Vec<Option<String>>| text_views(bodies@))
}

/// The views of optional texts.
pub open spec fn text_views(texts: Seq<Option<String>>) -> Seq<Option<Seq<char>>> {
    texts.map_values(
        |t: Option<String>|
            match t {
                Some(s) => Some(s@),
                None => None,
            },
    )
}

/// `protobuf::parse_from_bytes` for a request: the decoded request, or
/// `None` where the decoder reports an error. Decoding depends on the bytes
/// alone. The decoder takes no field number that the wire format cannot
/// write, so the join request of a decoded request can be encoded.
#[verifier::external_body]
pub(crate) fn parse_request(bytes: &[u8]) -> (request: Option<Request>)
    ensures
        request == parsed_request(bytes@),
        request matches Some(r) ==> join_contents(request_contents(r).join).writable,
{
    protobuf::parse_from_bytes::<Request>(bytes).ok()
}

/// `protobuf::parse_from_bytes` for a response: the decoded response, or
/// `None` where the decoder reports an error. Decoding depends on the bytes
/// alone. The decoder takes no field number that the wire format cannot
/// write, so a decoded response can be encoded.
#[verifier::external_body]
pub(crate) fn parse_response(bytes: &[u8]) -> (response: Option<Response>)
    ensures
        response == parsed_response(bytes@),
        response matches Some(r) ==> response_contents(r).writable,
{
    protobuf::parse_from_bytes::<Response>(bytes).ok()
}

/// The `has_*` accessors of `Request`: which of the alternatives `quit`,
/// `ping`, `join_game`, `debug` and `leave_game` the request holds, if any.
/// A request holds at most one alternative.
#[verifier::external_body]
pub(crate) fn request_kind(request: &Request) -> (kind: RequestKind)
    ensures
        kind == request_contents(*request).kind,
{
    if request.has_quit() {
        RequestKind::Quit
    } else if request.has_ping() {
        RequestKind::Ping
    } else if request.has_join_game() {
        RequestKind::JoinGame
    } else if request.has_debug() {
        RequestKind::Debug
    } else if request.has_leave_game() {
        RequestKind::LeaveGame
    } else {
        RequestKind::Other
    }
}

/// `UnknownFields::get` on the unknown fields of a request: the last
/// integer recorded under `field`, if any.
#[verifier::external_body]
pub(crate) fn request_integer(request: &Request, field: u32) -> (value: Option<u64>)
    ensures
        value == (if request_contents(*request).integers.contains_key(field) {
            Some(request_contents(*request).integers[field])
        } else {
            None
        }),
{
    request.get_unknown_fields().get(field).and_then(|v| v.varint.last().copied())
}

/// `Request::get_action`, `RequestAction::get_actions`,
/// `UnknownFields::get` on the unknown fields of each action, and
/// `protobuf::parse_from_bytes` for a chat body: for each action, in order,
/// the values with a length prefix that the action holds under `field`, in
/// the order sent, each with the message of the chat body that it decodes
/// to, where it decodes to one that has a message.
#[verifier::external_body]
pub(crate) fn request_chat(request: &Request, field: u32) -> (chats: Vec<Vec<Option<String>>>)
    ensures
        chat_views(chats@) == chat_bodies(request_contents(*request), field),
{
    request.get_action().get_actions().iter().map(
        |action| action.get_unknown_fields().get(field).into_iter().flat_map(
            |values| values.length_delimited.iter(),
        ).map(
            |bytes| protobuf::parse_from_bytes::<ActionChat>(bytes).ok().and_then(
                |chat| if chat.has_message() { Some(chat.get_message().to_owned()) } else { None },
            ),
        ).collect(),
    ).collect()
}

/// `Request::get_join_game`: a copy of the body of the join request.
#[verifier::external_body]
pub(crate) fn request_join(request: &Request) -> (join: RequestJoinGame)
    ensures
        join == request_contents(*request).join,
{
    request.get_join_game().clone()
}

/// `RequestJoinGame::get_race`: the protocol number of the race asked for,
/// which is 0 where no race is set and at most 4.
#[verifier::external_body]
pub(crate) fn join_race(join: &RequestJoinGame) -> (race: i32)
    ensures
        race == join_contents(*join).race,
        0 <= race <= 4,
{
    join.get_race().value()
}

/// `RequestJoinGame::get_options`: a copy of the interface options, which
/// can be encoded where the request can.
#[verifier::external_body]
pub(crate) fn join_options(join: &RequestJoinGame) -> (options: InterfaceOptions)
    ensures
        options == join_contents(*join).options,
        join_contents(*join).writable ==> options_writable(options),
{
    join.get_options().clone()
}

/// `UnknownFields::get` on the unknown fields of a join request: the last
/// text recorded under `field`, if any and if it is UTF-8.
#[verifier::external_body]
pub(crate) fn join_text(join: &RequestJoinGame, field: u32) -> (text: Option<String>)
    ensures
        match text {
            Some(t) => join_contents(*join).texts.contains_key(field) && join_contents(
                *join,
            ).texts[field] == t@,
            None => !join_contents(*join).texts.contains_key(field),
        },
{
    let values = join.get_unknown_fields().get(field)?;
    String::from_utf8(values.length_delimited.last()?.clone()).ok()
}

/// `UnknownFields::add_varint` on the unknown fields of interface options:
/// records `value` as the last value under `field`, a number that the type
/// of the options does not know. Other fields keep their values, those that
/// the message type knows too, and options that could be encoded still can.
#[verifier::external_body]
pub(crate) fn set_option_flag(options: &mut InterfaceOptions, field: u32, value: bool)
    requires
        is_option_extension(field),
    ensures
        option_flag(*final(options), field) == Some(value),
        options_writable(*final(options)) == options_writable(*old(options)),
        option_settings(*final(options)) == option_settings(*old(options)),
        forall|other: u32|
            other != field ==> option_flag(*final(options), other) == option_flag(
                *old(options),
                other,
            ),
{
    options.mut_unknown_fields().add_varint(field, value as u64);
}

/// `RequestJoinGame::new`, `set_options` and `set_race`: a join request
/// with the given options and race and nothing else, which can be encoded
/// where the options can. `race` is a protocol number of a race.
#[verifier::external_body]
pub(crate) fn new_join_request(options: InterfaceOptions, race: i32) -> (join: RequestJoinGame)
    requires
        0 <= race <= 4,
    ensures
        join_contents(join).race == race,
        join_contents(join).options == options,
        join_contents(join).texts == no_texts(),
        join_contents(join).shared_port is None,
        join_contents(join).server_ports is None,
        join_contents(join).client_ports == no_ports(),
        join_contents(join).writable == options_writable(options),
{
    let mut join = RequestJoinGame::new();
    join.set_options(options);
    join.set_race(WireRace::from_i32(race).unwrap_or(WireRace::NoRace));
    join
}

/// `UnknownFields::add_length_delimited` on the unknown fields of a join
/// request: records `text` as the last text under `field`, a number that
/// the type of the request does not know. All else is kept.
#[verifier::external_body]
pub(crate) fn set_join_text(join: &mut RequestJoinGame, field: u32, text: &str)
    requires
        is_join_extension(field),
    ensures
        join_contents(*final(join)) == (JoinContents {
            texts: join_contents(*old(join)).texts.insert(field, text@),
            ..join_contents(*old(join))
        }),
{
    join.mut_unknown_fields().add_length_delimited(field, text.as_bytes().to_vec());
}

/// `RequestJoinGame::set_shared_port`. All else is kept.
#[verifier::external_body]
pub(crate) fn set_shared_port(join: &mut RequestJoinGame, port: i32)
    ensures
        join_contents(*final(join)) == (JoinContents {
            shared_port: Some(port),
            ..join_contents(*old(join))
        }),
{
    join.set_shared_port(port);
}

/// `RequestJoinGame::set_server_ports` with a new port set. All else is
/// kept.
#[verifier::external_body]
pub(crate) fn set_server_ports(join: &mut RequestJoinGame, game_port: i32, base_port: i32)
    ensures
        join_contents(*final(join)) == (JoinContents {
            server_ports: Some((game_port, base_port)),
            ..join_contents(*old(join))
        }),
{
    let mut ports = PortSet::new();
    ports.set_game_port(game_port);
    ports.set_base_port(base_port);
    join.set_server_ports(ports);
}

/// `RequestJoinGame::set_client_ports` with a list of one new port set. All
/// else is kept.
#[verifier::external_body]
pub(crate) fn set_client_ports(join: &mut RequestJoinGame, game_port: i32, base_port: i32)
    ensures
        join_contents(*final(join)) == (JoinContents {
            client_ports: seq![(game_port, base_port)],
            ..join_contents(*old(join))
        }),
{
    let mut ports = PortSet::new();
    ports.set_game_port(game_port);
    ports.set_base_port(base_port);
    join.set_client_ports(protobuf::RepeatedField::from_vec(vec![ports]));
}

/// `Request::set_join_game` and `Message::write_to_bytes`: the bytes of a
/// request that holds the join request. Unknown fields are written in an
/// order that is not fixed, so the bytes have no name; whatever the order,
/// they decode to a join request that holds the same. The encoder fails
/// only where a required field is missing, and the messages have none; it
/// does not return for a field number that the wire format cannot write.
#[verifier::external_body]
pub(crate) fn encode_join_request(join: RequestJoinGame) -> (bytes: Vec<u8>)
    requires
        join_contents(join).writable,
    ensures
        decodes_to_join(bytes@, join_contents(join)),
{
    let mut request = Request::new();
    request.set_join_game(join);
    request.write_to_bytes().unwrap_or_default()
}

/// The `has_*` accessors of `Response`: which of the alternatives
/// `create_game`, `join_game`, `quit`, `game_info`, `observation` and
/// `save_replay` the response holds, if any. A response holds at most one
/// alternative.
#[verifier::external_body]
pub(crate) fn response_kind(response: &Response) -> (kind: ResponseKind)
    ensures
        kind == response_contents(*response).kind,
{
    if response.has_create_game() {
        ResponseKind::CreateGame
    } else if response.has_join_game() {
        ResponseKind::JoinGame
    } else if response.has_quit() {
        ResponseKind::Quit
    } else if response.has_game_info() {
        ResponseKind::GameInfo
    } else if response.has_observation() {
        ResponseKind::Observation
    } else if response.has_save_replay() {
        ResponseKind::SaveReplay
    } else {
        ResponseKind::Other
    }
}

/// `Response::get_status`: the protocol number of the status that the
/// response gives, and that of `launched` (1) where it gives none.
#[verifier::external_body]
pub(crate) fn response_status(response: &Response) -> (status: i32)
    ensures
        status == response_contents(*response).status,
{
    response.get_status().value()
}

/// `ResponseCreateGame::has_error` on `Response::get_create_game`.
#[verifier::external_body]
pub(crate) fn create_game_error(response: &Response) -> (error: bool)
    ensures
        error == response_contents(*response).create_error,
{
    response.get_create_game().has_error()
}

/// `ResponseJoinGame::get_player_id` and `has_error` on
/// `Response::get_join_game`.
#[verifier::external_body]
pub(crate) fn join_game_outcome(response: &Response) -> (outcome: (u32, bool))
    ensures
        outcome.0 == response_contents(*response).join_player_id,
        outcome.1 == response_contents(*response).join_error,
{
    (response.get_join_game().get_player_id(), response.get_join_game().has_error())
}

/// `ResponseGameInfo::get_player_info` on `Response::get_game_info`: id,
/// requested race and actual race of each player, in order. A race that is
/// set is given by its protocol number, between 0 and 4.
#[verifier::external_body]
pub(crate) fn game_info_players(response: &Response) -> (players: Vec<PlayerInfoEntry>)
    ensures
        players@ == response_contents(*response).players,
        forall|i: int|
            0 <= i < players@.len() ==> (#[trigger] players@[i].race_requested matches Some(n)
                ==> 0 <= n <= 4),
{
    response.get_game_info().get_player_info().iter().map(
        |p|
            PlayerInfoEntry {
                player_id: p.get_player_id(),
                race_requested: if p.has_race_requested() { Some(p.get_race_requested().value()) } else { None },
                race_actual: if p.has_race_actual() { Some(p.get_race_actual().value()) } else { None },
            },
    ).collect()
}

/// `PlayerInfo::set_race_actual` and `clear_race_actual` on one entry of
/// the player list of a `game_info` response: the entry's actual race
/// becomes `race`. All else is kept.
#[verifier::external_body]
pub(crate) fn set_race_actual(response: &mut Response, index: usize, race: Option<i32>)
    requires
        response_contents(*old(response)).kind == ResponseKind::GameInfo,
        index < response_contents(*old(response)).players.len(),
        race matches Some(n) ==> 0 <= n <= 4,
    ensures
        response_contents(*final(response)) == (ResponseContents {
            players: response_contents(*old(response)).players.update(
                index as int,
                (PlayerInfoEntry {
                    race_actual: race,
                    ..response_contents(*old(response)).players[index as int]
                }),
            ),
            ..response_contents(*old(response))
        }),
{
    let info = &mut response.mut_game_info().mut_player_info()[index];
    match race.and_then(WireRace::from_i32) {
        Some(r) => info.set_race_actual(r),
        None => info.clear_race_actual(),
    }
}

/// `Observation::get_game_loop` on the observation of
/// `Response::get_observation`.
#[verifier::external_body]
pub(crate) fn observation_game_loop(response: &Response) -> (game_loop: u32)
    ensures
        game_loop == response_contents(*response).game_loop,
{
    response.get_observation().get_observation().get_game_loop()
}

/// `ResponseObservation::get_player_result` on `Response::get_observation`:
/// player id and protocol number of the outcome of each entry, in order.
/// The numbers are those of victory (1), defeat (2), tie (3) and undecided
/// (4).
#[verifier::external_body]
pub(crate) fn observation_results(response: &Response) -> (results: Vec<(u32, i32)>)
    ensures
        results@ == response_contents(*response).results,
        forall|i: int| 0 <= i < results@.len() ==> 1 <= (#[trigger] results@[i]).1 <= 4,
{
    response.get_observation().get_player_result().iter().map(
        |r| (r.get_player_id(), r.get_result().value()),
    ).collect()
}

/// `ResponseSaveReplay::get_data` on `Response::get_save_replay`: a copy of
/// the replay.
#[verifier::external_body]
pub(crate) fn replay_data(response: &Response) -> (data: Vec<u8>)
    ensures
        data@ == response_contents(*response).replay,
{
    response.get_save_replay().get_data().to_vec()
}

/// `Message::write_to_bytes` for a response: its bytes. Unknown fields are
/// written in an order that is not fixed, so the bytes have no name;
/// whatever the order, they decode to a response that holds the same. The
/// encoder fails only where a required field is missing, and the messages
/// have none; it does not return for a field number that the wire format
/// cannot write.
#[verifier::external_body]
pub(crate) fn encode_response(response: &Response) -> (bytes: Vec<u8>)
    requires
        response_contents(*response).writable,
    ensures
        decodes_to_response(bytes@, response_contents(*response)),
{
    response.write_to_bytes().unwrap_or_default()
}

/// `Response::set_quit` and `Message::write_to_bytes`: the bytes of a
/// response that holds an empty `quit` answer and nothing else. These are
/// the tag of field 8 with a length prefix, and the length 0.
#[verifier::external_body]
pub(crate) fn encode_quit_response() -> (bytes: Vec<u8>)
    ensures
        bytes@ == seq![0x42u8, 0x00u8],
{
    let mut response = Response::new();
    response.set_quit(ResponseQuit::new());
    response.write_to_bytes().unwrap_or_default()
}

/// `Request::set_save_replay` and `Message::write_to_bytes`: the bytes of a
/// request that holds an empty `save_replay` body and nothing else. These
/// are the tag of field 15 with a length prefix, and the length 0.
#[verifier::external_body]
pub(crate) fn encode_save_replay_request() -> (bytes: Vec<u8>)
    ensures
        bytes@ == seq![0x7au8, 0x00u8],
{
    let mut request = Request::new();
    request.set_save_replay(RequestSaveReplay::new());
    request.write_to_bytes().unwrap_or_default()
}

/// `ResponsePing` with its four setters, `Response::set_ping` and
/// `Message::write_to_bytes`: the bytes of a `ping` response with the given
/// version, builds and data version.
#[verifier::external_body]
pub(crate) fn encode_pong(version: &str, base_build: u32, data_build: u32, data_version: &str)
    -> (bytes: Vec<u8>)
    ensures
        bytes@ == encoded_pong(version@, base_build, data_build, data_version@),
{
    let mut pong = ResponsePing::new();
    pong.set_game_version(version.to_owned());
    pong.set_base_build(base_build);
    pong.set_data_build(data_build);
    pong.set_data_version(data_version.to_owned());
    let mut response = Response::new();
    response.set_ping(pong);
    response.write_to_bytes().unwrap_or_default()
}

/// `Status::from_i32`, `Response::set_status`, `UnknownFields::add_varint`
/// and `Message::write_to_bytes`: the bytes of a response with the status
/// of the protocol number `status` and with `id` under the field number
/// `field`.
#[verifier::external_body]
pub(crate) fn encode_status_reply(status: i32, field: u32, id: u32) -> (bytes: Vec<u8>)
    requires
        is_status_number(status),
        is_response_extension(field),
    ensures
        bytes@ == encoded_status_reply(status, field, id),
{
    let mut response = Response::new();
    if let Some(status) = Status::from_i32(status) {
        response.set_status(status);
    }
    response.mut_unknown_fields().add_varint(field, id as u64);
    response.write_to_bytes().unwrap_or_default()
}

/// `PlayerType::from_i32`, `PlayerSetup::set_field_type`,
/// `RequestCreateGame` with `set_local_map`, `set_realtime` and
/// `set_player_setup`, `Request::set_create_game` and
/// `Message::write_to_bytes`: the bytes of a request to create a game on the
/// local map at `map_path`, with one player setup of each of the given
/// types, in order.
#[verifier::external_body]
pub(crate) fn encode_create_game(map_path: &str, realtime: bool, player_types: &Vec<i32>) -> (bytes:
    Vec<u8>)
    requires
        forall|i: int| 0 <= i < player_types@.len() ==> is_player_type(#[trigger] player_types@[i]),
    ensures
        bytes@ == encoded_create_game(map_path@, realtime, player_types@),
{
    let mut map = LocalMap::new();
    map.set_map_path(map_path.to_owned());
    let setups = player_types.iter().map(|number| {
        let mut setup = PlayerSetup::new();
        PlayerType::from_i32(*number).map(|player_type| setup.set_field_type(player_type));
        setup
    });
    let mut create = RequestCreateGame::new();
    create.set_local_map(map);
    create.set_realtime(realtime);
    create.set_player_setup(setups.collect());
    let mut request = Request::new();
    request.set_create_game(create);
    request.write_to_bytes().unwrap_or_default()
}

} // verus!
