use celeste_splitter::engine::{RunState, ticks_to_ms};
use celeste_splitter::game_types::Settings;
use celeste_splitter::snapshot::Snapshot;

fn snap(completed: bool, area_id: i32, mode: i32, level: &str) -> Snapshot {
    Snapshot {
        completed,
        started: true,
        area_id,
        area_difficulty: mode,
        level: level.to_owned(),
        game_ticks: 0,
        level_ticks: 0,
        file_strawberries: 0,
        chapter_strawberries: 0,
        file_cassettes: 0,
        file_hearts: 0,
        chapter_cassette: false,
        chapter_heart: false,
    }
}

#[test]
fn debounce_same_token_twice() {
    // A checkpoint fires on the first sight of its token and not on the
    // repeated read of the same token the next tick.
    let mut settings = Settings::default();
    settings.chapter4_checkpoint1 = true;
    let mut state = RunState::new();
    assert!(state.should_split(&settings, &snap(false, 4, 0, "b-00")));
    assert!(!state.should_split(&settings, &snap(false, 4, 0, "b-00")));
    assert!(!state.should_split(&settings, &snap(false, 4, 0, "b-00")));
}

#[test]
fn debounce_two_different_tokens() {
    // Two different tokens in a row are both compared unchanged.
    let mut settings = Settings::default();
    settings.chapter4_checkpoint1 = true;
    settings.chapter4_checkpoint2 = true;
    let mut state = RunState::new();
    assert!(state.should_split(&settings, &snap(false, 4, 0, "b-00")));
    assert!(state.should_split(&settings, &snap(false, 4, 0, "c-00")));
}

#[test]
fn debounce_rearms_on_change() {
    // Leaving the room and coming back re-arms the comparison.
    let mut settings = Settings::default();
    settings.chapter4_checkpoint1 = true;
    let mut state = RunState::new();
    assert!(state.should_split(&settings, &snap(false, 4, 0, "b-00")));
    assert!(!state.should_split(&settings, &snap(false, 4, 0, "a-00")));
    assert!(state.should_split(&settings, &snap(false, 4, 0, "b-00")));
}

#[test]
fn chapter_exit_file_timer_fires_on_fourth_tick() {
    // File-timer mode: completed = [false, true, true, false] at the
    // target area fires exactly once, when the flag falls again.
    let mut settings = Settings::default();
    settings.chapter7 = true;
    settings.level_time = false;
    let mut state = RunState::new();
    assert!(!state.should_split(&settings, &snap(false, 7, 0, "a-00")));
    assert!(!state.should_split(&settings, &snap(true, 7, 0, "a-00")));
    assert!(!state.should_split(&settings, &snap(true, 7, 0, "a-00")));
    assert!(state.should_split(&settings, &snap(false, 7, 0, "a-00")));
    // And never again without a fresh completion.
    assert!(!state.should_split(&settings, &snap(false, 7, 0, "a-00")));
}

#[test]
fn chapter_exit_level_timer_fires_on_second_tick() {
    // Chapter-timer mode: the same sequence fires exactly once, on the
    // tick the completion flag rises.
    let mut settings = Settings::default();
    settings.chapter7 = true;
    settings.level_time = true;
    let mut state = RunState::new();
    assert!(!state.should_split(&settings, &snap(false, 7, 0, "a-00")));
    assert!(state.should_split(&settings, &snap(true, 7, 0, "a-00")));
    assert!(!state.should_split(&settings, &snap(true, 7, 0, "a-00")));
    assert!(!state.should_split(&settings, &snap(false, 7, 0, "a-00")));
}

#[test]
fn credits_guard_blocks_final_chapter() {
    // A completion first seen on a "credits" level token never arms the
    // final chapter's rule.
    let mut settings = Settings::default();
    settings.chapter7 = true;
    settings.level_time = true;
    let mut state = RunState::new();
    assert!(!state.should_split(&settings, &snap(false, 7, 0, "a-00")));
    assert!(!state.should_split(&settings, &snap(true, 7, 0, "credits_scene")));
    assert!(!state.should_split(&settings, &snap(true, 7, 0, "credits_scene")));
    assert!(!state.should_split(&settings, &snap(false, 7, 0, "credits_scene")));
}

#[test]
fn credits_guard_only_for_final_chapter() {
    // The guard is the final chapter's alone: another chapter's rule
    // fires even when the token spells "credits_scene".
    let mut settings = Settings::default();
    settings.chapter8 = true;
    settings.level_time = true;
    let mut state = RunState::new();
    assert!(!state.should_split(&settings, &snap(false, 9, 0, "a-00")));
    assert!(state.should_split(&settings, &snap(true, 9, 0, "credits_scene")));
}

#[test]
fn checkpoint_mode_tables_differ() {
    // Chapter 1's first checkpoint: the B-side table entry is "04", the
    // A-side entry is "6". A token of "04" matches only on the B-side.
    let mut settings = Settings::default();
    settings.chapter1_checkpoint1 = true;

    let mut state = RunState::new();
    assert!(state.should_split(&settings, &snap(false, 1, 1, "04")));

    let mut state = RunState::new();
    assert!(!state.should_split(&settings, &snap(false, 1, 0, "04")));

    let mut state = RunState::new();
    assert!(state.should_split(&settings, &snap(false, 1, 0, "6")));

    // C-side uses the B-side table.
    let mut state = RunState::new();
    assert!(state.should_split(&settings, &snap(false, 1, 2, "04")));
}

#[test]
fn checkpoint_needs_matching_area() {
    let mut settings = Settings::default();
    settings.chapter1_checkpoint1 = true;
    let mut state = RunState::new();
    assert!(!state.should_split(&settings, &snap(false, 2, 1, "04")));
}

#[test]
fn any_chapter_rule_ignores_area() {
    // The any-chapter rule fires on a completion whatever area is
    // current.
    let mut settings = Settings::default();
    settings.chapter = true;
    settings.level_time = true;
    let mut state = RunState::new();
    assert!(!state.should_split(&settings, &snap(false, 5, 0, "x")));
    assert!(state.should_split(&settings, &snap(true, 5, 0, "x")));
}

#[test]
fn disabled_rules_never_fire() {
    let settings = Settings::default();
    let mut state = RunState::new();
    assert!(!state.should_split(&settings, &snap(false, 1, 1, "04")));
    assert!(!state.should_split(&settings, &snap(true, 7, 0, "a-00")));
    assert!(!state.should_split(&settings, &snap(false, 7, 0, "a-00")));
}

#[test]
fn ticks_to_ms_rounds_toward_zero() {
    assert_eq!(ticks_to_ms(0), 0);
    assert_eq!(ticks_to_ms(9_999), 0);
    assert_eq!(ticks_to_ms(10_000), 1);
    assert_eq!(ticks_to_ms(1_000_000), 100);
    assert_eq!(ticks_to_ms(-9_999), 0);
    assert_eq!(ticks_to_ms(-10_000), -1);
    assert_eq!(ticks_to_ms(-19_999), -1);
    assert_eq!(ticks_to_ms(i64::MAX), 922_337_203_685_477);
    assert_eq!(ticks_to_ms(i64::MIN), -922_337_203_685_477);
}

#[test]
fn update_detects_fresh_run_once() {
    // A run that has just started (small elapsed time, real area, a
    // level present) asks for reset-start-pause exactly once.
    let mut settings = Settings::default();
    settings.level_time = false;
    let mut state = RunState::new();

    let mut s = snap(false, 0, 0, "0");
    s.game_ticks = 500_000;
    let acts = state.update(&settings, &s);
    assert!(acts.new_run);
    assert_eq!(acts.game_time_ms, 50);
    assert!(!acts.split);

    let mut s2 = snap(false, 0, 0, "0");
    s2.game_ticks = 900_000;
    let acts2 = state.update(&settings, &s2);
    assert!(!acts2.new_run);
    assert_eq!(acts2.game_time_ms, 90);
}

#[test]
fn update_no_fresh_run_in_menu() {
    // A negative area id (the menu) never looks like a fresh run.
    let settings = Settings::default();
    let mut state = RunState::new();
    let s = snap(false, -1, 0, "0");
    let acts = state.update(&settings, &s);
    assert!(!acts.new_run);
}

#[test]
fn update_no_fresh_run_without_level() {
    let settings = Settings::default();
    let mut state = RunState::new();
    let s = snap(false, 0, 0, "");
    let acts = state.update(&settings, &s);
    assert!(!acts.new_run);
}

#[test]
fn update_picks_timer_by_setting() {
    let mut state = RunState::new();
    let mut s = snap(false, 3, 0, "a");
    s.game_ticks = 20_000_000;
    s.level_ticks = 10_000_000;

    let mut settings = Settings::default();
    settings.level_time = false;
    assert_eq!(state.update(&settings, &s).game_time_ms, 2_000);

    settings.level_time = true;
    let mut state2 = RunState::new();
    assert_eq!(state2.update(&settings, &s).game_time_ms, 1_000);
}
