use protobuf::Message;
use rust_ac::build_info::BuildInfo;
use rust_ac::config::Config;
use rust_ac::controller::{
    create_supervisor_listener, ConnectionStep, Controller, Enrolled, GameId, JoinStep,
    ListenerStep, PlaylistAction, PlaylistUpdate, Polled, RemoteUpdateStatus, SupervisorAction,
    SupervisorFrame, SupervisorStep,
};
use rust_ac::handler::game::{GameEndReason, GameResult};
use rust_ac::handler::lobby::PlayerNum;
use rust_ac::handler::player::{ClientFrame, Player, PlayerData};
use rust_ac::sc2::{PlayerResult, Race};
use rust_ac::server::ClientType;
use sc2_proto::common::Race as WireRace;
use sc2_proto::sc2api::{
    InterfaceOptions, Request, RequestJoinGame, RequestObservation, RequestPing, RequestQuit,
    Response,
};

fn config() -> Config {
    Config {
        map: "AutomatonLE".to_string(),
        max_game_time: 100,
        player1: "A".to_string(),
        player2: "B".to_string(),
        player1_race: Some("z".to_string()),
        validate_race: true,
        light_mode: true,
        ..Config::default()
    }
}

fn ready() -> Controller {
    let mut controller = Controller::new();
    controller.on_connection(ClientType::Controller);
    controller.set_config(config());
    controller
}

fn join(race: WireRace) -> RequestJoinGame {
    let mut join = RequestJoinGame::new();
    join.set_race(race);
    join.set_options(InterfaceOptions::new());
    join
}

fn frame(request: &Request) -> ClientFrame {
    ClientFrame::Binary(request.write_to_bytes().unwrap())
}

fn build() -> BuildInfo {
    BuildInfo { version: "5.0.11.90136".to_string(), base_build: 90136, data_build: 90136 }
}

fn text(data: &str) -> ListenerStep {
    create_supervisor_listener(SupervisorFrame::Text(data.to_string()))
}

#[test]
fn supervisor_texts_are_told_apart() {
    assert_eq!(text("Reset"), ListenerStep { emit: Some(SupervisorAction::Quit), stop: true });
    assert_eq!(text("Received"), ListenerStep { emit: Some(SupervisorAction::Received), stop: false });
    assert_eq!(text("Quit"), ListenerStep { emit: Some(SupervisorAction::ForceQuit), stop: true });
    let json = "{\"Map\": \"AutomatonLE\", \"MaxGameTime\": 10}";
    assert_eq!(
        text(json),
        ListenerStep { emit: Some(SupervisorAction::Config(json.to_string())), stop: false }
    );
    assert_eq!(
        text("{\"map\":1}"),
        ListenerStep { emit: Some(SupervisorAction::Config("{\"map\":1}".to_string())), stop: false }
    );
    assert_eq!(
        text("Quit the Map"),
        ListenerStep { emit: Some(SupervisorAction::Config("Quit the Map".to_string())), stop: false }
    );
    for other in ["", "reset", "Reset ", "quit", "MAP", "Ma p", "received", "Quit\n", "ma"] {
        assert_eq!(text(other), ListenerStep { emit: None, stop: false });
    }
}

#[test]
fn supervisor_frames_are_told_apart() {
    assert_eq!(
        create_supervisor_listener(SupervisorFrame::Ping(vec![1, 2, 3])),
        ListenerStep { emit: Some(SupervisorAction::Ping(vec![1, 2, 3])), stop: false }
    );
    assert_eq!(
        create_supervisor_listener(SupervisorFrame::Other),
        ListenerStep { emit: None, stop: false }
    );
    assert_eq!(
        create_supervisor_listener(SupervisorFrame::Fault),
        ListenerStep { emit: Some(SupervisorAction::ForceQuit), stop: true }
    );
    assert_eq!(
        create_supervisor_listener(SupervisorFrame::End),
        ListenerStep { emit: None, stop: true }
    );
}

#[test]
fn supervisor_is_bound_and_greeted() {
    let mut controller = Controller::new();
    assert!(!controller.has_supervisor());
    assert_eq!(
        controller.on_connection(ClientType::Controller),
        ConnectionStep::Supervisor { replaced: false, greeting: "{\"Status\":\"Connected\"}".to_string() }
    );
    assert!(controller.has_supervisor());
    assert_eq!(
        controller.on_connection(ClientType::Controller),
        ConnectionStep::Supervisor { replaced: true, greeting: "{\"Status\":\"Connected\"}".to_string() }
    );
    assert!(controller.has_supervisor());
}

#[test]
fn bot_is_turned_away_without_a_supervisor() {
    let mut controller = Controller::new();
    assert_eq!(controller.on_connection(ClientType::Bot), ConnectionStep::TurnedAway);
    assert_eq!(controller.connected_clients, 0);
    assert!(controller.clients.is_empty());
    assert!(!controller.can_enroll());
}

#[test]
fn bots_are_enrolled_as_player_one_then_two() {
    let mut controller = ready();
    assert!(controller.light_mode);
    assert!(controller.can_enroll());
    assert_eq!(
        controller.on_connection(ClientType::Bot),
        ConnectionStep::Enrolled { notice: "{\"Bot\":\"Connected\"}".to_string() }
    );
    assert!(controller.can_enroll());
    controller.on_connection(ClientType::Bot);
    assert!(!controller.can_enroll());
    assert_eq!(controller.on_connection(ClientType::Bot), ConnectionStep::TurnedAway);
    assert_eq!(controller.connected_clients, 2);
    assert_eq!(controller.clients.len(), 2);
    assert_eq!(controller.clients[0].name, "A");
    assert_eq!(controller.clients[0].race, Some(Race::Zerg));
    assert!(!controller.clients[0].join_requested);
    assert_eq!(controller.clients[1].name, "B");
    assert_eq!(controller.clients[1].race, None);
}

#[test]
fn config_is_acknowledged() {
    let mut controller = Controller::new();
    controller.on_connection(ClientType::Controller);
    assert_eq!(controller.set_config(config()), "{\"Config\":\"Received\"}");
    assert_eq!(controller.config, Some(config()));
    assert!(controller.light_mode);
    assert_eq!(controller.set_config(Config::default()), "{\"Config\":\"Received\"}");
    assert!(!controller.light_mode);
}

#[test]
fn supervisor_actions_are_carried_out() {
    let mut controller = ready();
    controller.on_connection(ClientType::Bot);
    assert_eq!(controller.on_supervisor(SupervisorAction::Ping(vec![9, 8])), SupervisorStep::Pong(vec![9, 8]));
    assert_eq!(controller.on_supervisor(SupervisorAction::Received), SupervisorStep::Nothing);
    assert_eq!(controller.on_supervisor(SupervisorAction::NoAction), SupervisorStep::Nothing);
    assert_eq!(
        controller.on_supervisor(SupervisorAction::Config("{}".to_string())),
        SupervisorStep::ReadConfig("{}".to_string())
    );
    assert_eq!(controller.on_supervisor(SupervisorAction::ForceQuit), SupervisorStep::Stop);
    assert_eq!(controller.clients.len(), 1);
    assert!(controller.has_supervisor());
    assert_eq!(
        controller.on_supervisor(SupervisorAction::Quit),
        SupervisorStep::Reset { reply: "Reset".to_string() }
    );
    assert!(!controller.has_supervisor());
    assert!(controller.clients.is_empty());
    assert_eq!(controller.config, None);
    assert!(controller.lobby.is_none());
    assert!(!controller.game);
    assert_eq!(controller.connected_clients, 0);
    assert!(controller.light_mode);
}

#[test]
fn actions_are_taken_off_the_queue_in_order() {
    let mut queue = vec![
        SupervisorAction::NoAction,
        SupervisorAction::NoAction,
        SupervisorAction::Received,
        SupervisorAction::NoAction,
        SupervisorAction::Quit,
    ];
    assert_eq!(Controller::recv_msg(&mut queue), Some(SupervisorAction::Received));
    assert_eq!(queue, vec![SupervisorAction::NoAction, SupervisorAction::Quit]);
    assert_eq!(Controller::recv_msg(&mut queue), Some(SupervisorAction::Quit));
    assert!(queue.is_empty());
    assert_eq!(Controller::recv_msg(&mut queue), None);
    let mut idle = vec![SupervisorAction::NoAction, SupervisorAction::NoAction];
    assert_eq!(Controller::recv_msg(&mut idle), None);
    assert!(idle.is_empty());
}

#[test]
fn quit_of_a_bot_is_answered_and_the_bot_let_go() {
    let mut request = Request::new();
    request.set_quit(RequestQuit::new());
    match Controller::process_client_message(&frame(&request), &build()) {
        PlaylistAction::RespondQuit(bytes) => {
            assert_eq!(bytes, vec![0x42, 0x00]);
            let answer: Response = protobuf::parse_from_bytes(&bytes).unwrap();
            assert!(answer.has_quit());
        }
        other => panic!("{:?}", other),
    }
}

#[test]
fn ping_of_a_bot_is_answered_with_the_build() {
    let mut request = Request::new();
    request.set_ping(RequestPing::new());
    match Controller::process_client_message(&frame(&request), &build()) {
        PlaylistAction::Respond(bytes) => {
            let answer: Response = protobuf::parse_from_bytes(&bytes).unwrap();
            assert!(answer.has_ping());
            assert_eq!(answer.get_ping().get_game_version(), "5.0.11.90136");
            assert_eq!(answer.get_ping().get_base_build(), 90136);
            assert_eq!(answer.get_ping().get_data_build(), 90136);
            assert!(answer.get_ping().has_data_version());
            assert_eq!(answer.get_ping().get_data_version(), "");
        }
        other => panic!("{:?}", other),
    }
}

#[test]
fn join_of_a_bot_is_handed_on() {
    let mut request = Request::new();
    request.set_join_game(join(WireRace::Terran));
    match Controller::process_client_message(&frame(&request), &build()) {
        PlaylistAction::JoinGame(body) => assert_eq!(body.get_race(), WireRace::Terran),
        other => panic!("{:?}", other),
    }
}

#[test]
fn anything_else_gets_the_bot_kicked() {
    let mut request = Request::new();
    request.set_observation(RequestObservation::new());
    assert!(matches!(Controller::process_client_message(&frame(&request), &build()), PlaylistAction::Kick));
    assert!(matches!(Controller::process_client_message(&frame(&Request::new()), &build()), PlaylistAction::Kick));
    assert!(matches!(
        Controller::process_client_message(&ClientFrame::Binary(vec![0xff, 0x01]), &build()),
        PlaylistAction::Kick
    ));
    assert!(matches!(Controller::process_client_message(&ClientFrame::Close, &build()), PlaylistAction::Kick));
    assert!(matches!(Controller::process_client_message(&ClientFrame::Other, &build()), PlaylistAction::Kick));
}

#[test]
fn two_joins_fill_the_lobby() {
    let mut controller = ready();
    controller.on_connection(ClientType::Bot);
    controller.on_connection(ClientType::Bot);
    assert!(matches!(controller.client_join_game(1, join(WireRace::Protoss)), JoinStep::Waiting));
    assert_eq!(controller.clients.len(), 1);
    assert_eq!(controller.clients[0].name, "A");
    assert_eq!(controller.lobby.as_ref().unwrap().players.len(), 1);
    match controller.client_join_game(0, join(WireRace::Terran)) {
        JoinStep::Start { lobby, seat } => {
            assert_eq!(seat, 0);
            assert_eq!(lobby.players.len(), 2);
            assert_eq!(lobby.players[0].data.name, Some("A".to_string()));
            assert_eq!(lobby.players[0].data.race, Race::Zerg);
            assert_eq!(lobby.players[1].data.name, Some("B".to_string()));
            assert_eq!(lobby.players[1].data.race, Race::Protoss);
            assert_eq!(lobby.config, config());
        }
        other => panic!("{:?}", other),
    }
    assert!(controller.clients.is_empty());
    assert!(controller.lobby.is_none());
    assert_eq!(controller.connected_clients, 2);
    controller.game_started();
    assert!(controller.game);
}

#[test]
fn join_without_race_or_config_is_turned_down() {
    let mut controller = ready();
    controller.on_connection(ClientType::Bot);
    assert!(matches!(controller.client_join_game(0, RequestJoinGame::new()), JoinStep::Refused));
    assert!(controller.clients.is_empty());
    assert!(controller.lobby.is_none());
    let mut controller = ready();
    controller.on_connection(ClientType::Bot);
    controller.on_connection(ClientType::Bot);
    assert!(matches!(controller.client_join_game(0, join(WireRace::Zerg)), JoinStep::Waiting));
    assert!(matches!(controller.client_join_game(0, RequestJoinGame::new()), JoinStep::Refused));
    assert_eq!(controller.lobby.as_ref().unwrap().players.len(), 1);
    let mut controller = ready();
    controller.on_connection(ClientType::Bot);
    controller.config = None;
    assert!(matches!(controller.client_join_game(0, join(WireRace::Zerg)), JoinStep::NoLobby));
    let mut controller = ready();
    controller.on_connection(ClientType::Bot);
    controller.set_config(Config { player1: "X".to_string(), player2: "Y".to_string(), ..config() });
    assert!(matches!(controller.client_join_game(0, join(WireRace::Zerg)), JoinStep::UnknownBot));
    let mut controller = ready();
    controller.clients.push(Enrolled { name: "A".to_string(), race: None, join_requested: true });
    controller.connected_clients = 1;
    assert!(matches!(controller.client_join_game(0, join(WireRace::Zerg)), JoinStep::Dropped));
    assert!(controller.clients.is_empty());
}

#[test]
fn bots_are_numbered_by_their_names() {
    assert_eq!(Controller::player_num(&config(), "A"), Some(PlayerNum::One));
    assert_eq!(Controller::player_num(&config(), "B"), Some(PlayerNum::Two));
    assert_eq!(Controller::player_num(&config(), "a"), None);
    assert_eq!(Controller::player_num(&config(), ""), None);
    let same = Config { player1: "S".to_string(), player2: "S".to_string(), ..Config::default() };
    assert_eq!(Controller::player_num(&same, "S"), Some(PlayerNum::One));
}

#[test]
fn playlist_round_follows_the_frame() {
    let mut controller = ready();
    controller.on_connection(ClientType::Bot);
    controller.on_connection(ClientType::Bot);
    assert!(matches!(controller.update_clients(1, &Polled::Nothing, &build()), PlaylistUpdate::Idle));
    assert_eq!(controller.clients.len(), 2);
    let mut ping = Request::new();
    ping.set_ping(RequestPing::new());
    assert!(matches!(
        controller.update_clients(1, &Polled::Frame(frame(&ping)), &build()),
        PlaylistUpdate::Respond(_)
    ));
    assert_eq!(controller.clients.len(), 2);
    let mut request = Request::new();
    request.set_join_game(join(WireRace::Terran));
    assert!(matches!(
        controller.update_clients(1, &Polled::Frame(frame(&request)), &build()),
        PlaylistUpdate::Joined(JoinStep::Waiting)
    ));
    assert_eq!(controller.clients.len(), 1);
    let mut quit = Request::new();
    quit.set_quit(RequestQuit::new());
    match controller.update_clients(0, &Polled::Frame(frame(&quit)), &build()) {
        PlaylistUpdate::RespondQuit(bytes) => assert_eq!(bytes, vec![0x42, 0x00]),
        other => panic!("{:?}", other),
    }
    assert!(controller.clients.is_empty());
    assert_eq!(controller.connected_clients, 2);
    let mut controller = ready();
    controller.on_connection(ClientType::Bot);
    controller.on_connection(ClientType::Bot);
    assert!(matches!(controller.update_clients(0, &Polled::Fault, &build()), PlaylistUpdate::Closed));
    assert_eq!(controller.clients.len(), 1);
    assert_eq!(controller.clients[0].name, "B");
    assert!(matches!(
        controller.update_clients(0, &Polled::Frame(ClientFrame::Other), &build()),
        PlaylistUpdate::Closed
    ));
    assert!(controller.clients.is_empty());
}

#[test]
fn finished_game_is_reported_and_the_controller_reset() {
    let mut controller = ready();
    controller.on_connection(ClientType::Bot);
    controller.game_started();
    let result = GameResult {
        end_reason: GameEndReason::Normal,
        player_results: vec![PlayerResult::Victory, PlayerResult::Timeout],
        average_frame_time: Some(vec![3, 4]),
        game_loops: 2240,
    };
    let mut first = Player::new(PlayerData {
        race: Race::Zerg,
        name: Some("A".to_string()),
        interface_options: InterfaceOptions::new(),
    });
    first.frame_time = 3;
    let report = controller.update_games(&result, &vec![first]);
    assert_eq!(
        report.result,
        vec![("A".to_string(), "Victory".to_string()), ("B".to_string(), "Timeout".to_string())]
    );
    assert_eq!(report.game_time, 2240);
    assert_eq!(report.map, "AutomatonLE");
    assert_eq!(report.average_frame_time, vec![("A".to_string(), 3)]);
    assert!(!controller.has_supervisor());
    assert!(!controller.game);
    assert_eq!(controller.config, None);
    assert!(controller.clients.is_empty());
    assert_eq!(controller.connected_clients, 0);
}

#[test]
fn dropping_and_resetting() {
    let mut controller = ready();
    controller.on_connection(ClientType::Bot);
    controller.on_connection(ClientType::Bot);
    controller.drop_client(0);
    assert_eq!(controller.clients.len(), 1);
    assert_eq!(controller.clients[0].name, "B");
    assert_eq!(controller.connected_clients, 2);
    controller.close();
    assert!(controller.clients.is_empty());
    assert!(controller.has_supervisor());
    controller.drop_supervisor();
    assert!(!controller.has_supervisor());
    assert!(!Controller::default().has_supervisor());
    assert_eq!(GameId(7).next(), GameId(8));
    assert_eq!(GameId(0).next().next(), GameId(2));
    assert_ne!(RemoteUpdateStatus::Quit, RemoteUpdateStatus::Processed);
}
