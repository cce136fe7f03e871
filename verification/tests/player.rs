use protobuf::{Message, RepeatedField};
use rust_ac::config::Config;
use rust_ac::handler::messaging::{GameOver, ToGameContent};
use rust_ac::handler::obfuscation::{obfuscate_races, rewrite_needed};
use rust_ac::handler::outcome::{outcome_before, outcome_values, read_outcomes, sort_outcomes};
use rust_ac::handler::player::{
    average_frame_time, client_event, After, frame_timeout_secs, replay_choice, replay_request,
    save_replay, AbortReason, ClientEvent, ClientFrame, ClientStep, EngineEnd, EngineEvent,
    EngineStep, Finish, Player, PlayerData, ReceiveFault, Received, Relay, ReplayOrder,
    Visibility,
};
use rust_ac::handler::tags::{
    add_chat_tags, add_tag, chat_tag, copy_tags, merge_bodies, merge_chats,
};
use rust_ac::proto::PlayerInfoEntry;
use rust_ac::proto::{RequestKind, ResponseKind};
use rust_ac::sc2::{PlayerResult, Race};
use sc2_proto::common::Race as WireRace;
use sc2_proto::sc2api::{
    Action, ActionChat, InterfaceOptions, Observation, PlayerInfo, PlayerResult as WireOutcome,
    Request, RequestAction, RequestDebug, RequestJoinGame, RequestLeaveGame, RequestObservation,
    Response, ResponseGameInfo, ResponseObservation, ResponseQuit, ResponseSaveReplay,
    ResponseStep, Result as WireResult, Status,
};

fn driver(player_id: Option<u32>) -> Player {
    let mut player = Player::new(PlayerData {
        race: Race::Terran,
        name: Some("A".to_string()),
        interface_options: InterfaceOptions::new(),
    });
    player.player_id = player_id;
    player
}

fn config() -> Config {
    Config {
        max_game_time: 100,
        max_frame_time: 30,
        player1: "A".to_string(),
        player2: "B".to_string(),
        ..Config::default()
    }
}

fn bytes_of_request(request: &Request) -> Vec<u8> {
    request.write_to_bytes().unwrap()
}

fn bytes_of_response(response: &Response) -> Vec<u8> {
    response.write_to_bytes().unwrap()
}

fn chat_request(messages: &[&str]) -> Request {
    let mut actions = Vec::new();
    for message in messages {
        let mut chat = ActionChat::new();
        chat.set_message(message.to_string());
        let mut action = Action::new();
        action.mut_unknown_fields().add_length_delimited(6, chat.write_to_bytes().unwrap());
        actions.push(action);
    }
    let mut body = RequestAction::new();
    body.set_actions(RepeatedField::from_vec(actions));
    let mut request = Request::new();
    request.set_action(body);
    request
}

fn observation(game_loop: u32, outcomes: &[(u32, WireResult)]) -> Response {
    let mut inner = Observation::new();
    inner.set_game_loop(game_loop);
    let mut body = ResponseObservation::new();
    body.set_observation(inner);
    let mut results = Vec::new();
    for (player_id, result) in outcomes {
        let mut entry = WireOutcome::new();
        entry.set_player_id(*player_id);
        entry.set_result(*result);
        results.push(entry);
    }
    body.set_player_result(RepeatedField::from_vec(results));
    let mut response = Response::new();
    response.set_observation(body);
    response
}

fn game_info(players: &[(u32, Option<WireRace>, Option<WireRace>)]) -> Response {
    let mut infos = Vec::new();
    for (player_id, requested, actual) in players {
        let mut info = PlayerInfo::new();
        info.set_player_id(*player_id);
        if let Some(race) = requested {
            info.set_race_requested(*race);
        }
        if let Some(race) = actual {
            info.set_race_actual(*race);
        }
        infos.push(info);
    }
    let mut body = ResponseGameInfo::new();
    body.set_map_name("Automaton LE".to_string());
    body.set_player_info(RepeatedField::from_vec(infos));
    let mut response = Response::new();
    response.set_game_info(body);
    response
}

fn game_over(step: &Finish) -> &GameOver {
    match &step.notice {
        ToGameContent::GameOver(over) => over,
        other => panic!("no game over: {:?}", other),
    }
}

#[test]
fn debug_request_is_answered_without_the_engine() {
    let mut player = driver(Some(1));
    let config = Config { disable_debug: true, ..config() };
    let mut request = Request::new();
    request.set_debug(RequestDebug::new());
    request.mut_unknown_fields().add_varint(97, 42);
    let step = player.on_client(&config, &ClientEvent::Request(bytes_of_request(&request)), 0);
    match step {
        ClientStep::Reply(bytes) => {
            let reply: Response = protobuf::parse_from_bytes(&bytes).unwrap();
            assert!(reply.has_status());
            assert_eq!(reply.get_status(), Status::in_game);
            assert_eq!(reply.get_unknown_fields().get(97).unwrap().varint, vec![42]);
            assert!(!reply.has_debug());
        }
        other => panic!("{:?}", other),
    }
}

#[test]
fn debug_request_without_id_is_answered_with_id_zero() {
    let mut player = driver(Some(1));
    let config = Config { disable_debug: true, ..config() };
    let step = player.on_request(&config, RequestKind::Debug, 0, &vec![], 0);
    match step {
        ClientStep::Reply(bytes) => {
            let reply: Response = protobuf::parse_from_bytes(&bytes).unwrap();
            assert_eq!(reply.get_unknown_fields().get(97).unwrap().varint, vec![0]);
        }
        other => panic!("{:?}", other),
    }
}

#[test]
fn debug_request_goes_to_the_engine_where_debugging_is_allowed() {
    let mut player = driver(Some(1));
    let mut request = Request::new();
    request.set_debug(RequestDebug::new());
    let step = player.on_client(&config(), &ClientEvent::Request(bytes_of_request(&request)), 0);
    assert_eq!(step, ClientStep::Forward);
}

#[test]
fn large_request_id_is_read_in_full() {
    let mut player = driver(Some(1));
    let config = Config { disable_debug: true, ..config() };
    let mut request = Request::new();
    request.set_debug(RequestDebug::new());
    request.mut_unknown_fields().add_varint(97, 4294967295);
    match player.on_client(&config, &ClientEvent::Request(bytes_of_request(&request)), 0) {
        ClientStep::Reply(bytes) => {
            let reply: Response = protobuf::parse_from_bytes(&bytes).unwrap();
            assert_eq!(reply.get_unknown_fields().get(97).unwrap().varint, vec![4294967295]);
        }
        other => panic!("{:?}", other),
    }
}

#[test]
fn chat_tags_are_kept_in_the_order_sent() {
    let mut player = driver(Some(1));
    let request = chat_request(&["Tag:opening-cheese", "hello", "Tag:end-game-mass"]);
    let step = player.on_client(&config(), &ClientEvent::Request(bytes_of_request(&request)), 0);
    assert_eq!(step, ClientStep::Forward);
    assert_eq!(player.tags, vec!["opening-cheese".to_string(), "end-game-mass".to_string()]);
    let again = chat_request(&["Tag:opening-cheese", "Tag:late"]);
    player.on_client(&config(), &ClientEvent::Request(bytes_of_request(&again)), 0);
    assert_eq!(
        player.tags,
        vec!["opening-cheese".to_string(), "end-game-mass".to_string(), "late".to_string()]
    );
}

#[test]
fn chat_tag_is_what_follows_the_prefix() {
    assert_eq!(chat_tag("Tag:opening-cheese"), Some("opening-cheese".to_string()));
    assert_eq!(chat_tag("Tag:"), Some("".to_string()));
    assert_eq!(chat_tag("Tag:Tag:x"), Some("Tag:x".to_string()));
    assert_eq!(chat_tag("Tag:\u{e9}t\u{e9}"), Some("\u{e9}t\u{e9}".to_string()));
    assert_eq!(chat_tag("tag:x"), None);
    assert_eq!(chat_tag(" Tag:x"), None);
    assert_eq!(chat_tag("my Tag:x"), None);
    assert_eq!(chat_tag("Tag"), None);
    assert_eq!(chat_tag(""), None);
}

#[test]
fn tags_occur_once() {
    let mut tags = vec!["a".to_string()];
    add_tag(&mut tags, "b".to_string());
    add_tag(&mut tags, "a".to_string());
    add_tag(&mut tags, "".to_string());
    add_tag(&mut tags, "b".to_string());
    assert_eq!(tags, vec!["a".to_string(), "b".to_string(), "".to_string()]);
    add_chat_tags(
        &mut tags,
        &vec![None, Some("Tag:c".to_string()), Some("c".to_string()), Some("Tag:a".to_string())],
    );
    assert_eq!(tags, vec!["a".to_string(), "b".to_string(), "".to_string(), "c".to_string()]);
}

#[test]
fn surrender_is_a_defeat_for_the_leaver() {
    let mut player = driver(Some(1));
    player.game_loops = 57;
    let mut request = Request::new();
    request.set_leave_game(RequestLeaveGame::new());
    let step = player.on_client(&config(), &ClientEvent::Request(bytes_of_request(&request)), 0);
    match step {
        ClientStep::Finish(finish) => {
            assert_eq!(finish.replay, ReplayOrder::Skip);
            assert_eq!(finish.end, EngineEnd::Kill);
            let over = game_over(&finish);
            assert_eq!(over.results, vec![PlayerResult::Defeat, PlayerResult::Victory]);
            assert_eq!(over.game_loops, 57);
        }
        other => panic!("{:?}", other),
    }
    let mut second = driver(Some(2));
    let with_replay = Config { replay_path: "replays/x.SC2Replay".to_string(), ..config() };
    match second.on_request(&with_replay, RequestKind::LeaveGame, 0, &vec![], 0) {
        ClientStep::Finish(finish) => {
            assert_eq!(finish.replay, ReplayOrder::BeforeNotice);
            assert_eq!(
                game_over(&finish).results,
                vec![PlayerResult::Victory, PlayerResult::Defeat]
            );
        }
        other => panic!("{:?}", other),
    }
}

#[test]
fn surrender_without_a_player_id_ends_the_driver() {
    for id in [None, Some(0), Some(3)] {
        let mut player = driver(id);
        assert_eq!(
            player.on_request(&config(), RequestKind::LeaveGame, 0, &vec![], 0),
            ClientStep::Abort(AbortReason::NoPlayerId)
        );
    }
}

#[test]
fn vanished_bot_is_reported_as_unexpected_close() {
    let mut player = driver(Some(1));
    let with_replay = Config { replay_path: "r".to_string(), ..config() };
    let step = player.on_client(&with_replay, &ClientEvent::Closed, 5);
    assert_eq!(
        step,
        ClientStep::Finish(Finish {
            replay: ReplayOrder::Skip,
            notice: ToGameContent::UnexpectedConnectionClose,
            end: EngineEnd::Kill,
        })
    );
}

#[test]
fn frame_that_is_no_request_ends_the_driver() {
    let mut player = driver(Some(1));
    let step = player.on_client(&config(), &ClientEvent::Request(vec![0xff, 0xff, 0xff]), 0);
    assert_eq!(step, ClientStep::Abort(AbortReason::Undecodable));
    let step = player.on_engine(&config(), &EngineEvent::Response(vec![0x0a]));
    assert_eq!(step, EngineStep::Abort(AbortReason::Undecodable));
}

#[test]
fn time_is_counted_from_the_first_answer_on() {
    let mut player = driver(Some(1));
    let request = bytes_of_request(&chat_request(&[]));
    player.on_client(&config(), &ClientEvent::Request(request.clone()), 500);
    assert_eq!(player.frame_time_total, 0);
    let answer = bytes_of_response(&observation(1, &[]));
    player.on_engine(&config(), &EngineEvent::Response(answer.clone()));
    assert!(player.timer_started);
    player.on_client(&config(), &ClientEvent::Request(request.clone()), 500);
    assert_eq!(player.frame_time_total, 500);
    player.on_client(&config(), &ClientEvent::Request(request.clone()), 1500);
    assert_eq!(player.frame_time_total, 2000);
    let answer = bytes_of_response(&observation(4, &[]));
    player.on_engine(&config(), &EngineEvent::Response(answer));
    assert_eq!(player.game_loops, 4);
    assert_eq!(player.frame_time, 500);
    player.on_client(&config(), &ClientEvent::Request(request), u64::MAX);
    assert_eq!(player.frame_time_total, u64::MAX);
}

#[test]
fn mean_frame_time_is_zero_without_loops() {
    assert_eq!(average_frame_time(0, 0), 0);
    assert_eq!(average_frame_time(123456, 0), 0);
    assert_eq!(average_frame_time(0, 7), 0);
    assert_eq!(average_frame_time(22, 7), 3);
    assert_eq!(average_frame_time(u64::MAX, 1), u64::MAX);
    assert_eq!(average_frame_time(u64::MAX, u32::MAX), 4294967297);
}

#[test]
fn observation_past_the_time_limit_is_a_tie() {
    let mut player = driver(Some(1));
    let at_limit = bytes_of_response(&observation(100, &[]));
    assert_eq!(
        player.on_engine(&config(), &EngineEvent::Response(at_limit)),
        EngineStep::Relay { payload: Relay::Verbatim, then: After::GoOn }
    );
    let past = bytes_of_response(&observation(101, &[]));
    match player.on_engine(&config(), &EngineEvent::Response(past)) {
        EngineStep::Relay { payload: Relay::Verbatim, then: After::Finish(finish) } => {
            assert_eq!(finish.end, EngineEnd::Kill);
            assert_eq!(finish.replay, ReplayOrder::Skip);
            let over = game_over(&finish);
            assert_eq!(over.results, vec![PlayerResult::Tie, PlayerResult::Tie]);
            assert_eq!(over.game_loops, 101);
        }
        other => panic!("{:?}", other),
    }
    assert_eq!(player.game_loops, 101);
}

#[test]
fn outcomes_of_the_engine_are_ordered_by_player_id() {
    let mut player = driver(Some(2));
    player.tags = vec!["t".to_string()];
    player.frame_time_total = 900;
    let with_replay = Config { replay_path: "r".to_string(), ..config() };
    let answer = observation(90, &[(2, WireResult::Victory), (1, WireResult::Defeat)]);
    match player.on_engine(&with_replay, &EngineEvent::Response(bytes_of_response(&answer))) {
        EngineStep::Relay { payload: Relay::Verbatim, then: After::Finish(finish) } => {
            assert_eq!(finish.replay, ReplayOrder::AfterNotice);
            assert_eq!(finish.end, EngineEnd::Kill);
            let over = game_over(&finish);
            assert_eq!(over.results, vec![PlayerResult::Defeat, PlayerResult::Victory]);
            assert_eq!(over.game_loops, 90);
            assert_eq!(over.frame_time, 10);
            assert_eq!(over.tags, vec!["t".to_string()]);
        }
        other => panic!("{:?}", other),
    }
}

#[test]
fn outcomes_win_over_the_time_limit() {
    let mut player = driver(Some(1));
    let answer = observation(500, &[(1, WireResult::Tie), (2, WireResult::Tie)]);
    match player.on_engine(&config(), &EngineEvent::Response(bytes_of_response(&answer))) {
        EngineStep::Relay { then: After::Finish(finish), .. } => {
            assert_eq!(finish.replay, ReplayOrder::Skip);
            assert_eq!(game_over(&finish).results, vec![PlayerResult::Tie, PlayerResult::Tie]);
        }
        other => panic!("{:?}", other),
    }
}

#[test]
fn undecided_outcome_ends_the_driver() {
    let mut player = driver(Some(1));
    let answer = observation(5, &[(1, WireResult::Victory), (2, WireResult::Undecided)]);
    assert_eq!(
        player.on_engine(&config(), &EngineEvent::Response(bytes_of_response(&answer))),
        EngineStep::Relay {
            payload: Relay::Verbatim,
            then: After::GiveUp(AbortReason::UndecidedOutcome),
        }
    );
    assert_eq!(read_outcomes(&vec![(1, 1), (2, 4)]), None);
    assert_eq!(read_outcomes(&vec![(1, 0)]), None);
    assert_eq!(
        read_outcomes(&vec![(7, 3), (2, 1), (9, 2)]),
        Some(vec![(7, PlayerResult::Tie), (2, PlayerResult::Victory), (9, PlayerResult::Defeat)])
    );
    assert_eq!(read_outcomes(&vec![]), Some(vec![]));
}

#[test]
fn outcomes_are_sorted_by_id_then_outcome() {
    let entries = vec![
        (2, PlayerResult::Defeat),
        (1, PlayerResult::Tie),
        (2, PlayerResult::Victory),
        (0, PlayerResult::Timeout),
        (1, PlayerResult::Tie),
        (1, PlayerResult::Victory),
    ];
    let mut expected = entries.clone();
    expected.sort();
    assert_eq!(sort_outcomes(&entries), expected);
    assert_eq!(
        expected,
        vec![
            (0, PlayerResult::Timeout),
            (1, PlayerResult::Victory),
            (1, PlayerResult::Tie),
            (1, PlayerResult::Tie),
            (2, PlayerResult::Victory),
            (2, PlayerResult::Defeat),
        ]
    );
    assert_eq!(sort_outcomes(&vec![]), vec![]);
}

#[test]
fn quit_answer_ends_the_driver_with_a_wait() {
    let mut player = driver(Some(1));
    player.frame_time_total = 1000;
    player.game_loops = 10;
    let with_replay = Config { replay_path: "r".to_string(), ..config() };
    let mut answer = Response::new();
    answer.set_quit(ResponseQuit::new());
    let step = player.on_engine(&with_replay, &EngineEvent::Response(bytes_of_response(&answer)));
    assert_eq!(
        step,
        EngineStep::Relay {
            payload: Relay::Verbatim,
            then: After::Finish(Finish {
                replay: ReplayOrder::BeforeNotice,
                notice: ToGameContent::QuitBeforeLeave,
                end: EngineEnd::Wait,
            }),
        }
    );
    assert_eq!(player.frame_time, 100);
}

#[test]
fn other_answers_are_relayed_as_they_came() {
    let mut player = driver(Some(1));
    let mut answer = Response::new();
    answer.set_step(ResponseStep::new());
    answer.mut_unknown_fields().add_varint(97, 5);
    let step = player.on_engine(&config(), &EngineEvent::Response(bytes_of_response(&answer)));
    assert_eq!(step, EngineStep::Relay { payload: Relay::Verbatim, then: After::GoOn });
    assert_eq!(
        player.on_response(&config(), ResponseKind::Other, 3, 77, &vec![(1, 1)]),
        Ok(None)
    );
    assert_eq!(player.game_loops, 0);
    assert_eq!(player.sc2_status, Some(3));
    let mut answer = Response::new();
    answer.set_step(ResponseStep::new());
    answer.set_status(Status::ended);
    player.on_engine(&config(), &EngineEvent::Response(bytes_of_response(&answer)));
    assert_eq!(player.sc2_status, Some(5));
    player.on_engine(&config(), &EngineEvent::Response(bytes_of_response(&Response::new())));
    assert_eq!(player.sc2_status, Some(1));
}

#[test]
fn engine_that_is_gone_is_reported() {
    let mut player = driver(Some(2));
    let with_replay = Config { replay_path: "r".to_string(), ..config() };
    assert_eq!(
        player.on_engine(&with_replay, &EngineEvent::Closed),
        EngineStep::Finish(Finish {
            replay: ReplayOrder::Skip,
            notice: ToGameContent::SC2UnexpectedConnectionClose,
            end: EngineEnd::Kill,
        })
    );
}

#[test]
fn game_info_hides_the_race_of_the_opponent() {
    let mut player = driver(Some(1));
    let answer = game_info(&[
        (1, Some(WireRace::Random), Some(WireRace::Terran)),
        (2, Some(WireRace::Random), Some(WireRace::Zerg)),
        (3, None, Some(WireRace::Protoss)),
    ]);
    match player.on_engine(&config(), &EngineEvent::Response(bytes_of_response(&answer))) {
        EngineStep::Relay { payload: Relay::Rewritten(bytes), then: After::GoOn } => {
            let seen: Response = protobuf::parse_from_bytes(&bytes).unwrap();
            let infos = seen.get_game_info().get_player_info();
            assert_eq!(infos.len(), 3);
            assert_eq!(infos[0].get_race_actual(), WireRace::Terran);
            assert_eq!(infos[0].get_race_requested(), WireRace::Random);
            assert_eq!(infos[1].get_race_actual(), WireRace::Random);
            assert_eq!(infos[1].get_race_requested(), WireRace::Random);
            assert!(!infos[2].has_race_actual());
            assert!(!infos[2].has_race_requested());
            assert_eq!(infos[2].get_player_id(), 3);
            assert_eq!(seen.get_game_info().get_map_name(), "Automaton LE");
        }
        other => panic!("{:?}", other),
    }
    assert!(player.timer_started);
}

#[test]
fn game_info_without_a_player_id_ends_the_driver() {
    let mut player = driver(None);
    let answer = game_info(&[(1, Some(WireRace::Random), Some(WireRace::Terran))]);
    assert_eq!(
        player.on_engine(&config(), &EngineEvent::Response(bytes_of_response(&answer))),
        EngineStep::Abort(AbortReason::NoPlayerId)
    );
}

#[test]
fn obfuscation_leaves_other_answers_alone() {
    let mut answer = observation(3, &[(1, WireResult::Victory)]);
    let before = answer.clone();
    obfuscate_races(&mut answer, 1);
    assert!(answer == before);
    let mut info = game_info(&[(2, Some(WireRace::Zerg), Some(WireRace::Zerg))]);
    let before = info.clone();
    obfuscate_races(&mut info, 1);
    assert!(info == before);
    let mut info = game_info(&[(2, Some(WireRace::Random), Some(WireRace::Zerg))]);
    obfuscate_races(&mut info, 2);
    assert_eq!(info.get_game_info().get_player_info()[0].get_race_actual(), WireRace::Zerg);
}

#[test]
fn replay_is_read_from_the_answer() {
    assert_eq!(replay_request(), vec![0x7a, 0x00]);
    let asked: Request = protobuf::parse_from_bytes(&replay_request()).unwrap();
    assert!(asked.has_save_replay());
    let mut body = ResponseSaveReplay::new();
    body.set_data(vec![1, 2, 3, 255]);
    let mut answer = Response::new();
    answer.set_save_replay(body);
    let answer = EngineEvent::Response(bytes_of_response(&answer));
    assert_eq!(save_replay("replay.SC2Replay", &answer), Some(vec![1, 2, 3, 255]));
    assert_eq!(save_replay("", &answer), None);
    assert_eq!(save_replay("replay.SC2Replay", &EngineEvent::Closed), None);
    let other = EngineEvent::Response(bytes_of_response(&observation(1, &[])));
    assert_eq!(save_replay("replay.SC2Replay", &other), None);
    assert_eq!(save_replay("replay.SC2Replay", &EngineEvent::Response(vec![0xff])), None);
}

#[test]
fn receive_is_read_as_an_event() {
    assert_eq!(
        client_event(Received::Frame(ClientFrame::Binary(vec![1, 2]))),
        Some(ClientEvent::Request(vec![1, 2]))
    );
    assert_eq!(client_event(Received::Frame(ClientFrame::Close)), Some(ClientEvent::Closed));
    assert_eq!(client_event(Received::Frame(ClientFrame::Other)), None);
    assert_eq!(client_event(Received::End), Some(ClientEvent::Closed));
    assert_eq!(client_event(Received::Late), Some(ClientEvent::Closed));
    for fault in [
        ReceiveFault::ConnectionReset,
        ReceiveFault::ConnectionAborted,
        ReceiveFault::TimedOut,
        ReceiveFault::WouldBlock,
        ReceiveFault::ResetWithoutClosingHandshake,
    ] {
        assert_eq!(client_event(Received::Fault(fault)), Some(ClientEvent::Closed));
    }
    assert_eq!(client_event(Received::Fault(ReceiveFault::Other)), None);
}

#[test]
fn frame_timeout_is_the_configured_number() {
    assert_eq!(frame_timeout_secs(&Config { max_frame_time: 20, ..Config::default() }), 20);
    assert_eq!(frame_timeout_secs(&Config { max_frame_time: 0, ..Config::default() }), 0);
    assert_eq!(
        frame_timeout_secs(&Config { max_frame_time: -1, ..Config::default() }),
        u64::MAX
    );
    assert_eq!(
        frame_timeout_secs(&Config { max_frame_time: i32::MIN, ..Config::default() }),
        i32::MIN as u64
    );
    assert_eq!(
        frame_timeout_secs(&Config { max_frame_time: i32::MAX, ..Config::default() }),
        2147483647
    );
}

#[test]
fn player_data_is_read_from_the_join_request() {
    let mut options = InterfaceOptions::new();
    options.set_raw(true);
    options.mut_unknown_fields().add_varint(6, 1);
    options.mut_unknown_fields().add_varint(5, 1);
    let mut join = RequestJoinGame::new();
    join.set_race(WireRace::Protoss);
    join.set_options(options);
    join.mut_unknown_fields().add_length_delimited(7, b"Bot".to_vec());
    let data = PlayerData::from_join_request(join.clone(), true);
    assert_eq!(data.race, Race::Protoss);
    assert_eq!(data.name, Some("Bot".to_string()));
    assert!(data.interface_options.get_raw());
    let flags = &data.interface_options.get_unknown_fields().get(6).unwrap().varint;
    assert_eq!(flags.last(), Some(&0));
    assert_eq!(data.interface_options.get_unknown_fields().get(5).unwrap().varint, vec![1]);
    let data = PlayerData::from_join_request(join, false);
    let flags = &data.interface_options.get_unknown_fields().get(6).unwrap().varint;
    assert_eq!(flags.last(), Some(&1));
    let mut plain = RequestJoinGame::new();
    plain.set_race(WireRace::Random);
    let data = PlayerData::checked_from_join_request(plain, false).unwrap();
    assert_eq!(data.race, Race::Random);
    assert_eq!(data.name, None);
    assert!(PlayerData::checked_from_join_request(RequestJoinGame::new(), false).is_none());
    let mut observer = RequestJoinGame::new();
    observer.set_observed_player_id(1);
    assert!(PlayerData::checked_from_join_request(observer, false).is_none());
}

#[test]
fn new_driver_knows_nothing() {
    let player = driver(None);
    assert_eq!(player.player_name(), &Some("A".to_string()));
    assert_eq!(player.game_loops, 0);
    assert_eq!(player.frame_time, 0);
    assert_eq!(player.player_id, None);
    assert_eq!(player.sc2_status, None);
    assert!(player.tags.is_empty());
    assert!(!player.timer_started);
    assert_eq!(Visibility::default(), Visibility::Hidden);
    let mut request = Request::new();
    request.set_observation(RequestObservation::new());
    let mut player = player;
    assert_eq!(
        player.on_client(&config(), &ClientEvent::Request(bytes_of_request(&request)), 9),
        ClientStep::Forward
    );
}

#[test]
fn game_info_that_shows_nothing_hidden_is_relayed_as_it_came() {
    let mut player = driver(Some(1));
    let answer = game_info(&[
        (1, Some(WireRace::Random), Some(WireRace::Terran)),
        (2, Some(WireRace::Zerg), Some(WireRace::Zerg)),
        (3, None, None),
    ]);
    assert_eq!(
        player.on_engine(&config(), &EngineEvent::Response(bytes_of_response(&answer))),
        EngineStep::Relay { payload: Relay::Verbatim, then: After::GoOn }
    );
    assert!(player.timer_started);
    let mut nameless = driver(None);
    assert_eq!(
        nameless.on_engine(&config(), &EngineEvent::Response(bytes_of_response(&game_info(&[])))),
        EngineStep::Relay { payload: Relay::Verbatim, then: After::GoOn }
    );
}

#[test]
fn rewrite_is_needed_where_an_opponent_shows_another_race() {
    let own = PlayerInfoEntry { player_id: 1, race_requested: Some(4), race_actual: Some(2) };
    let open = PlayerInfoEntry { player_id: 2, race_requested: Some(4), race_actual: Some(1) };
    let same = PlayerInfoEntry { player_id: 2, race_requested: Some(3), race_actual: Some(3) };
    let unset = PlayerInfoEntry { player_id: 3, race_requested: None, race_actual: Some(3) };
    let empty = PlayerInfoEntry { player_id: 3, race_requested: None, race_actual: None };
    assert!(!rewrite_needed(&vec![], 1));
    assert!(!rewrite_needed(&vec![own], 1));
    assert!(rewrite_needed(&vec![own], 2));
    assert!(rewrite_needed(&vec![own, same, open], 1));
    assert!(!rewrite_needed(&vec![own, same, empty], 1));
    assert!(rewrite_needed(&vec![unset], 1));
    assert!(!rewrite_needed(&vec![unset], 3));
}

#[test]
fn small_helpers_of_the_driver() {
    assert!(outcome_before((1, PlayerResult::Tie), (2, PlayerResult::Victory)));
    assert!(outcome_before((1, PlayerResult::Victory), (1, PlayerResult::Victory)));
    assert!(outcome_before((1, PlayerResult::Victory), (1, PlayerResult::Defeat)));
    assert!(!outcome_before((1, PlayerResult::Defeat), (1, PlayerResult::Victory)));
    assert!(!outcome_before((2, PlayerResult::Victory), (1, PlayerResult::Timeout)));
    assert_eq!(
        outcome_values(&vec![(5, PlayerResult::Tie), (1, PlayerResult::Crash)]),
        vec![PlayerResult::Tie, PlayerResult::Crash]
    );
    let tags = vec!["a".to_string(), "".to_string()];
    assert_eq!(copy_tags(&tags), tags);
    assert_eq!(replay_choice(&config(), ReplayOrder::AfterNotice), ReplayOrder::Skip);
    let with_replay = Config { replay_path: "r".to_string(), ..config() };
    assert_eq!(replay_choice(&with_replay, ReplayOrder::AfterNotice), ReplayOrder::AfterNotice);
    assert_eq!(replay_choice(&with_replay, ReplayOrder::Skip), ReplayOrder::Skip);
}

#[test]
fn other_interface_options_stay_as_they_came() {
    let mut options = InterfaceOptions::new();
    options.set_raw(true);
    options.mut_unknown_fields().add_varint(6, 1);
    let mut join = RequestJoinGame::new();
    join.set_race(WireRace::Terran);
    join.set_options(options);
    let data = PlayerData::from_join_request(join, true);
    assert!(data.interface_options.has_raw());
    assert!(data.interface_options.get_raw());
    assert!(!data.interface_options.has_score());
    assert!(!data.interface_options.has_feature_layer());
    assert!(!data.interface_options.has_render());
    assert_eq!(data.interface_options.get_unknown_fields().get(6).unwrap().varint.last(), Some(&0));
    assert_eq!(data.race, Race::Terran);
    assert_eq!(data.name, None);
}

#[test]
fn chat_is_read_from_the_action_chat_of_each_action() {
    let mut player = driver(Some(1));
    let mut first = ActionChat::new();
    first.set_message("Tag:first".to_string());
    let mut second = ActionChat::new();
    second.set_message("Tag:second".to_string());
    let silent = ActionChat::new();
    let mut old_style = ActionChat::new();
    old_style.set_message("Tag:old".to_string());
    let mut merged = Action::new();
    merged.mut_unknown_fields().add_length_delimited(6, first.write_to_bytes().unwrap());
    merged.mut_unknown_fields().add_length_delimited(6, second.write_to_bytes().unwrap());
    merged.mut_unknown_fields().add_length_delimited(6, silent.write_to_bytes().unwrap());
    let mut other = Action::new();
    other.set_chat(RepeatedField::from_vec(vec![old_style]));
    other.mut_unknown_fields().add_length_delimited(7, first.write_to_bytes().unwrap());
    other.mut_unknown_fields().add_varint(6, 1);
    let mut third = Action::new();
    third.mut_unknown_fields().add_length_delimited(6, first.write_to_bytes().unwrap());
    let mut body = RequestAction::new();
    body.set_actions(RepeatedField::from_vec(vec![merged, other, Action::new(), third]));
    let mut request = Request::new();
    request.set_action(body);
    let step = player.on_client(&config(), &ClientEvent::Request(bytes_of_request(&request)), 0);
    assert_eq!(step, ClientStep::Forward);
    assert_eq!(player.tags, vec!["second".to_string(), "first".to_string()]);
    assert_eq!(merge_bodies(&vec![]), None);
    assert_eq!(merge_bodies(&vec![None, None]), None);
    assert_eq!(merge_bodies(&vec![Some("a".to_string()), None]), Some("a".to_string()));
    assert_eq!(
        merge_chats(&vec![vec![Some("a".to_string()), Some("b".to_string())], vec![], vec![None]]),
        vec![Some("b".to_string()), None, None]
    );
}
