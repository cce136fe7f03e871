use protobuf::ProtobufEnum;
use rust_ac::sc2::{BuiltinAI, Difficulty, PlayerResult, Race};
use sc2_proto::sc2api::Difficulty as WireDifficulty;
use sc2_proto::sc2api::Result as WireResult;

#[test]
fn race_numbers_are_those_of_the_protocol() {
    assert_eq!(Race::Terran.to_proto(), sc2_proto::common::Race::Terran.value());
    assert_eq!(Race::Zerg.to_proto(), sc2_proto::common::Race::Zerg.value());
    assert_eq!(Race::Protoss.to_proto(), sc2_proto::common::Race::Protoss.value());
    assert_eq!(Race::Random.to_proto(), sc2_proto::common::Race::Random.value());
    for race in [Race::Terran, Race::Zerg, Race::Protoss, Race::Random] {
        assert_eq!(Race::from_proto(race.to_proto()), race);
    }
    assert_eq!(Race::from_proto(3), Race::Protoss);
    assert_eq!(Race::default(), Race::Random);
}

#[test]
fn difficulty_numbers_are_those_of_the_protocol() {
    assert_eq!(Difficulty::VeryEasy.to_proto(), WireDifficulty::VeryEasy.value());
    assert_eq!(Difficulty::Easy.to_proto(), WireDifficulty::Easy.value());
    assert_eq!(Difficulty::Medium.to_proto(), WireDifficulty::Medium.value());
    assert_eq!(Difficulty::MediumHard.to_proto(), WireDifficulty::MediumHard.value());
    assert_eq!(Difficulty::Hard.to_proto(), WireDifficulty::Hard.value());
    assert_eq!(Difficulty::Harder.to_proto(), WireDifficulty::Harder.value());
    assert_eq!(Difficulty::VeryHard.to_proto(), WireDifficulty::VeryHard.value());
    assert_eq!(Difficulty::CheatVision.to_proto(), WireDifficulty::CheatVision.value());
    assert_eq!(Difficulty::CheatMoney.to_proto(), WireDifficulty::CheatMoney.value());
    assert_eq!(Difficulty::CheatInsane.to_proto(), WireDifficulty::CheatInsane.value());
    assert_eq!(Difficulty::default(), Difficulty::Hard);
    let ai = BuiltinAI { race: Race::Zerg, difficulty: Difficulty::Harder };
    assert_eq!(ai.difficulty.to_proto(), 6);
}

#[test]
fn result_numbers_are_those_of_the_protocol() {
    assert_eq!(PlayerResult::from_proto(WireResult::Victory.value()), PlayerResult::Victory);
    assert_eq!(PlayerResult::from_proto(WireResult::Defeat.value()), PlayerResult::Defeat);
    assert_eq!(PlayerResult::from_proto(WireResult::Tie.value()), PlayerResult::Tie);
    assert_eq!(PlayerResult::Victory.to_proto(), WireResult::Victory.value());
    assert_eq!(PlayerResult::Defeat.to_proto(), WireResult::Defeat.value());
    assert_eq!(PlayerResult::Tie.to_proto(), WireResult::Tie.value());
    assert_eq!(PlayerResult::Crash.to_proto(), WireResult::Defeat.value());
    assert_eq!(PlayerResult::Timeout.to_proto(), WireResult::Defeat.value());
    assert_eq!(PlayerResult::SC2Crash.to_proto(), WireResult::Undecided.value());
}

#[test]
fn results_are_written_by_their_names() {
    assert_eq!(PlayerResult::Victory.to_string(), "Victory");
    assert_eq!(PlayerResult::Defeat.to_string(), "Defeat");
    assert_eq!(PlayerResult::Tie.to_string(), "Tie");
    assert_eq!(PlayerResult::Crash.to_string(), "Crash");
    assert_eq!(PlayerResult::SC2Crash.to_string(), "SC2Crash");
    assert_eq!(PlayerResult::Timeout.to_string(), "Timeout");
    assert_eq!(PlayerResult::Victory.rank_number(), 0);
    assert_eq!(PlayerResult::Timeout.rank_number(), 5);
    assert!(PlayerResult::Victory < PlayerResult::Defeat);
}
