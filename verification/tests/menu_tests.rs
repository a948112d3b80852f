use randommenu::gamemode::GorillaResult;
use randommenu::menu_state::{mods_to_tick, MenuState, ModTransition};
use randommenu::mods::{
    all_mods, bounce_disable, bounce_enable, fly_disable, fly_enable, freeze_disable,
    freeze_enable, ghost_disable, ghost_enable, has_tick, long_arms_disable, long_arms_enable,
    on_disable, on_enable, speed_disable, speed_enable, Effect, MOD_COUNT,
};
use randommenu::ui::{button_label, button_style, id_listed, mod_index_of, ButtonStyle};

#[test]
fn new_state_is_empty() {
    let s = MenuState::new();
    assert_eq!(s.enabled, 0);
    assert!(!s.loaded);
    assert_eq!(s.prev_enabled, 0);
    assert!(!s.api_ready);
}

#[test]
fn load_takes_saved_bitmask() {
    let mut s = MenuState::new();
    s.load(0b101);
    assert_eq!(s.enabled, 0b101);
    assert!(s.loaded);
    assert_eq!(s.prev_enabled, 0);
}

#[test]
fn toggle_flips_one_bit() {
    let mut s = MenuState::new();
    s.toggle(2);
    assert_eq!(s.enabled, 0b100);
    s.toggle(0);
    assert_eq!(s.enabled, 0b101);
    s.toggle(2);
    assert_eq!(s.enabled, 0b001);
    s.toggle(31);
    assert_eq!(s.enabled, 0x8000_0001);
}

#[test]
fn toggle_twice_restores() {
    let mut s = MenuState::new();
    s.load(0b110011);
    s.toggle(4);
    s.toggle(4);
    assert_eq!(s.enabled, 0b110011);
}

#[test]
fn api_init_outcomes() {
    let mut s = MenuState::new();
    assert!(!s.note_api_init(GorillaResult::MonoNotFound));
    assert!(!s.api_ready);
    assert!(!s.note_api_init(GorillaResult::ClassNotFound));
    assert!(s.note_api_init(GorillaResult::Success));
    assert!(s.api_ready);
    assert!(s.note_api_init(GorillaResult::ClassNotFound));
    let mut t = MenuState::new();
    assert!(t.note_api_init(GorillaResult::AlreadyInitialised));
}

#[test]
fn transitions_between_frames() {
    let mut s = MenuState::new();
    let ts = s.apply_bitmask(0b000101);
    assert_eq!(
        ts,
        vec![
            ModTransition { index: 0, enable: true },
            ModTransition { index: 2, enable: true },
        ]
    );
    assert_eq!(s.prev_enabled, 0b000101);
    let ts = s.apply_bitmask(0b100100);
    assert_eq!(
        ts,
        vec![
            ModTransition { index: 0, enable: false },
            ModTransition { index: 5, enable: true },
        ]
    );
}

#[test]
fn repeated_bitmask_switches_nothing() {
    let mut s = MenuState::new();
    s.apply_bitmask(0b011010);
    let ts = s.apply_bitmask(0b011010);
    assert!(ts.is_empty());
}

#[test]
fn bits_past_the_mods_are_kept_but_not_switched() {
    let mut s = MenuState::new();
    let ts = s.apply_bitmask(0b1100_0000);
    assert!(ts.is_empty());
    assert_eq!(s.prev_enabled, 0b1100_0000);
}

#[test]
fn ticks_only_for_ticking_mods() {
    assert_eq!(mods_to_tick(0b111111), vec![0, 1, 5]);
    assert_eq!(mods_to_tick(0b011100), Vec::<u32>::new());
    assert_eq!(mods_to_tick(0b100010), vec![1, 5]);
    assert_eq!(mods_to_tick(0xFFFF_FFC0), Vec::<u32>::new());
}

#[test]
fn mod_table() {
    let mods = all_mods();
    assert_eq!(mods.len() as u32, MOD_COUNT);
    let ids: Vec<&str> = mods.iter().map(|m| m.id).collect();
    assert_eq!(ids, vec!["speed", "fly", "long_arms", "freeze", "ghost", "bounce"]);
    let names: Vec<&str> = mods.iter().map(|m| m.name).collect();
    assert_eq!(names, vec!["Speed Boost", "Fly", "Long Arms", "Freeze Self", "Ghost", "Bounce"]);
    let ticks: Vec<bool> = mods.iter().map(|m| m.has_tick).collect();
    assert_eq!(ticks, vec![true, true, false, false, false, true]);
    for i in 0..6u32 {
        assert_eq!(has_tick(i), mods[i as usize].has_tick);
    }
    assert!(!has_tick(6));
}

#[test]
fn mod_effects() {
    assert_eq!(speed_enable(), Effect::NoChange);
    assert_eq!(speed_disable(), Effect::StopMotion);
    assert_eq!(fly_enable(), Effect::NoChange);
    assert_eq!(fly_disable(), Effect::StopMotion);
    assert_eq!(long_arms_enable(), Effect::LongArms);
    assert_eq!(long_arms_disable(), Effect::NormalArms);
    assert_eq!(freeze_enable(), Effect::FreezeMovement);
    assert_eq!(freeze_disable(), Effect::UnfreezeMovement);
    assert_eq!(ghost_enable(), Effect::GhostColour);
    assert_eq!(ghost_disable(), Effect::PlainColour);
    assert_eq!(bounce_enable(), Effect::NoChange);
    assert_eq!(bounce_disable(), Effect::NoChange);
    assert_eq!(on_enable(3), Effect::FreezeMovement);
    assert_eq!(on_disable(4), Effect::PlainColour);
    assert_eq!(on_enable(9), Effect::NoChange);
    assert_eq!(on_disable(9), Effect::NoChange);
}

#[test]
fn button_styles() {
    assert_eq!(button_style(2, 2, true), ButtonStyle::Cursor);
    assert_eq!(button_style(2, 2, false), ButtonStyle::Cursor);
    assert_eq!(button_style(1, 2, true), ButtonStyle::On);
    assert_eq!(button_style(1, 2, false), ButtonStyle::Off);
}

#[test]
fn button_labels() {
    assert_eq!(button_label("Fly", true), "[ON]  Fly");
    assert_eq!(button_label("Fly", false), "[OFF] Fly");
}

#[test]
fn listed_ids() {
    let ids = vec!["fly".to_string(), "ghost".to_string()];
    assert!(id_listed(&ids, "ghost"));
    assert!(!id_listed(&ids, "speed"));
    assert!(!id_listed(&Vec::new(), "fly"));
}

#[test]
fn index_of_mod_ids() {
    assert_eq!(mod_index_of("speed"), Some(0));
    assert_eq!(mod_index_of("bounce"), Some(5));
    assert_eq!(mod_index_of("long_arms"), Some(2));
    assert_eq!(mod_index_of("nope"), None);
    assert_eq!(mod_index_of(""), None);
}
