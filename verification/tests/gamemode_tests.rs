use randommenu::gamemode::{GameModeType, GorillaResult};

#[test]
fn from_raw_known_codes() {
    assert_eq!(GameModeType::from_raw(0), GameModeType::Casual);
    assert_eq!(GameModeType::from_raw(1), GameModeType::Infection);
    assert_eq!(GameModeType::from_raw(6), GameModeType::GhostMode);
    assert_eq!(GameModeType::from_raw(10), GameModeType::InfectionCompetitive);
    assert_eq!(GameModeType::from_raw(12), GameModeType::SuperCasual);
}

#[test]
fn from_raw_unknown_codes() {
    assert_eq!(GameModeType::from_raw(-1), GameModeType::NoMode);
    assert_eq!(GameModeType::from_raw(13), GameModeType::NoMode);
    assert_eq!(GameModeType::from_raw(i32::MIN), GameModeType::NoMode);
    assert_eq!(GameModeType::from_raw(i32::MAX), GameModeType::NoMode);
}

#[test]
fn raw_round_trip() {
    for v in -1..=12 {
        assert_eq!(GameModeType::from_raw(v).to_raw(), v);
    }
    assert_eq!(GameModeType::from_raw(99).to_raw(), -1);
    assert_eq!(GameModeType::PropHunt.to_raw(), 9);
    assert_eq!(GameModeType::from_raw(GameModeType::Guardian.to_raw()), GameModeType::Guardian);
}

#[test]
fn result_codes() {
    assert_eq!(GorillaResult::Success.code(), 0);
    assert_eq!(GorillaResult::AlreadyInitialised.code(), 1);
    assert_eq!(GorillaResult::MonoNotFound.code(), 2);
    assert_eq!(GorillaResult::ClassNotFound.code(), 3);
    assert_eq!(GorillaResult::NullInstance.code(), 4);
    assert_eq!(GorillaResult::InvalidArg.code(), 5);
}

#[test]
fn api_usable_results() {
    assert!(GorillaResult::Success.api_usable());
    assert!(GorillaResult::AlreadyInitialised.api_usable());
    assert!(!GorillaResult::MonoNotFound.api_usable());
    assert!(!GorillaResult::ClassNotFound.api_usable());
    assert!(!GorillaResult::NullInstance.api_usable());
    assert!(!GorillaResult::InvalidArg.api_usable());
}
