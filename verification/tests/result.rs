use rust_ac::config::Config;
use rust_ac::handler::game::{GameEndReason, GameResult};
use rust_ac::handler::player::{Player, PlayerData};
use rust_ac::result::{set_entry, JsonResult};
use rust_ac::sc2::{PlayerResult, Race};
use sc2_proto::sc2api::InterfaceOptions;

fn named(name: &str, frame_time: u64, tags: &[&str]) -> Player {
    let mut player = Player::new(PlayerData {
        race: Race::Random,
        name: Some(name.to_string()),
        interface_options: InterfaceOptions::new(),
    });
    player.frame_time = frame_time;
    player.tags = tags.iter().map(|t| t.to_string()).collect();
    player
}

fn result(first: PlayerResult, second: PlayerResult, game_loops: u32) -> GameResult {
    GameResult {
        end_reason: GameEndReason::Normal,
        player_results: vec![first, second],
        average_frame_time: Some(vec![0, 0]),
        game_loops,
    }
}

#[test]
fn report_holds_what_the_match_gave() {
    let config = Config {
        map: "AutomatonLE".to_string(),
        player1: "Bot1".to_string(),
        player2: "Bot2".to_string(),
        replay_path: "/replays/10.SC2Replay".to_string(),
        replay_name: "10_Bot1_Bot2.SC2Replay".to_string(),
        match_id: 10,
        ..Config::default()
    };
    let players = vec![named("Bot1", 1500, &["a"]), named("Bot2", 2500, &["b", "c"])];
    let report = JsonResult::of_game(&config, &result(PlayerResult::Crash, PlayerResult::Victory, 2240), &players);
    assert_eq!(report.match_id, 10);
    assert_eq!(
        report.result,
        vec![("Bot1".to_string(), "Crash".to_string()), ("Bot2".to_string(), "Victory".to_string())]
    );
    assert_eq!(report.game_time, 2240);
    assert_eq!(report.game_time_formatted, "");
    assert_eq!(report.average_frame_time, vec![("Bot1".to_string(), 1500), ("Bot2".to_string(), 2500)]);
    assert_eq!(report.status, "Complete");
    assert_eq!(report.bots, vec![(1, "Bot1".to_string()), (2, "Bot2".to_string())]);
    assert_eq!(report.map, "AutomatonLE");
    assert_eq!(report.replay_path, "10_Bot1_Bot2.SC2Replay");
    assert_eq!(
        report.tags,
        vec![
            ("Bot1".to_string(), vec!["a".to_string()]),
            ("Bot2".to_string(), vec!["b".to_string(), "c".to_string()]),
        ]
    );
}

#[test]
fn bots_of_one_name_share_an_entry() {
    let config = Config { player1: "Same".to_string(), player2: "Same".to_string(), ..Config::default() };
    let players = vec![named("Same", 1, &["x"]), named("Same", 2, &["y"])];
    let report = JsonResult::of_game(&config, &result(PlayerResult::Victory, PlayerResult::Defeat, 1), &players);
    assert_eq!(report.result, vec![("Same".to_string(), "Defeat".to_string())]);
    assert_eq!(report.average_frame_time, vec![("Same".to_string(), 2)]);
    assert_eq!(report.tags, vec![("Same".to_string(), vec!["y".to_string()])]);
    assert_eq!(report.bots, vec![(1, "Same".to_string()), (2, "Same".to_string())]);
}

#[test]
fn report_of_a_match_whose_drivers_are_gone() {
    let config = Config { player1: "A".to_string(), player2: "B".to_string(), ..Config::default() };
    let report = JsonResult::of_game(&config, &result(PlayerResult::Tie, PlayerResult::Tie, 0), &vec![]);
    assert!(report.average_frame_time.is_empty());
    assert!(report.tags.is_empty());
    assert_eq!(report.result.len(), 2);
    assert_eq!(report.game_time, 0);
}

#[test]
fn missing_parts_of_a_report_are_empty() {
    let report = JsonResult::from(None, None, None, None, None, None, None, None, None, None);
    assert_eq!(report, JsonResult::default());
    assert_eq!(report.match_id, 0);
    assert_eq!(report.status, "");
    let report = JsonResult::from(
        Some(vec![("A".to_string(), "Tie".to_string())]),
        Some(7),
        Some("0:00".to_string()),
        Some(vec![("A".to_string(), 9)]),
        Some("Complete".to_string()),
        Some(vec![(1, "A".to_string())]),
        Some("Map".to_string()),
        Some("replay".to_string()),
        Some(-3),
        Some(vec![("A".to_string(), vec!["t".to_string()])]),
    );
    assert_eq!(report.result, vec![("A".to_string(), "Tie".to_string())]);
    assert_eq!(report.game_time, 7);
    assert_eq!(report.game_time_formatted, "0:00");
    assert_eq!(report.average_frame_time, vec![("A".to_string(), 9)]);
    assert_eq!(report.bots, vec![(1, "A".to_string())]);
    assert_eq!(report.map, "Map");
    assert_eq!(report.replay_path, "replay");
    assert_eq!(report.match_id, -3);
    assert_eq!(report.tags, vec![("A".to_string(), vec!["t".to_string()])]);
}

#[test]
fn set_entry_replaces_or_appends() {
    let mut items: Vec<(String, u64)> = Vec::new();
    set_entry(&mut items, "a".to_string(), 1);
    set_entry(&mut items, "b".to_string(), 2);
    set_entry(&mut items, "c".to_string(), 3);
    set_entry(&mut items, "b".to_string(), 20);
    set_entry(&mut items, "".to_string(), 4);
    set_entry(&mut items, "A".to_string(), 5);
    set_entry(&mut items, "a".to_string(), 10);
    assert_eq!(
        items,
        vec![
            ("a".to_string(), 10),
            ("b".to_string(), 20),
            ("c".to_string(), 3),
            ("".to_string(), 4),
            ("A".to_string(), 5),
        ]
    );
}
