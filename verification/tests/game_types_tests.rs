use celeste_splitter::game_types::{Area, AreaMode, Menu, Settings};

#[test]
fn area_ids_match_the_game() {
    assert_eq!(Area::Menu.id(), -1);
    assert_eq!(Area::Prologue.id(), 0);
    assert_eq!(Area::ForsakenCity.id(), 1);
    assert_eq!(Area::OldSite.id(), 2);
    assert_eq!(Area::CelestialResort.id(), 3);
    assert_eq!(Area::GoldenRidge.id(), 4);
    assert_eq!(Area::MirrorTemple.id(), 5);
    assert_eq!(Area::Reflection.id(), 6);
    assert_eq!(Area::TheSummit.id(), 7);
    assert_eq!(Area::Epilogue.id(), 8);
    assert_eq!(Area::Core.id(), 9);
}

#[test]
fn mode_ids_match_the_game() {
    assert_eq!(AreaMode::ASide.id(), 0);
    assert_eq!(AreaMode::BSide.id(), 1);
    assert_eq!(AreaMode::CSide.id(), 2);
}

#[test]
fn menu_ids_match_the_game() {
    assert_eq!(Menu::InGame.id(), 0);
    assert_eq!(Menu::Intro.id(), 14);
    assert_eq!(Menu::FileSelect.id(), 60);
    assert_eq!(Menu::MainMenu.id(), 64);
    assert_eq!(Menu::ChapterSelect.id(), 80);
    assert_eq!(Menu::ChapterPanel.id(), 168);
    assert_eq!(Menu::FileRename.id(), 180);
}

#[test]
fn settings_default_is_all_off() {
    let s = Settings::default();
    assert!(!s.level_time);
    assert!(!s.chapter);
    assert!(!s.prologue);
    assert!(!s.chapter7);
    assert!(!s.chapter1_checkpoint1);
    assert!(!s.chapter8_checkpoint3);
    assert!(!s.chapter8_heartgem);
}
