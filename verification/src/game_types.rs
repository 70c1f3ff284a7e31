//! Domain vocabulary of the game: areas (chapters), their difficulty modes,
//! menu screens, and the per-rule split settings.

use vstd::prelude::*;

verus! {

/// A top-level chapter of the game. The target process stores the current
/// area as a 32-bit signed id; `Menu` stands for the negative "no area" id.
#[derive(Copy, Clone, PartialEq, Eq, Structural, Debug)]
pub enum Area {
    Menu,
    Prologue,
    ForsakenCity,
    OldSite,
    CelestialResort,
    GoldenRidge,
    MirrorTemple,
    Reflection,
    TheSummit,
    Epilogue,
    Core,
}

impl Area {
    /// The id under which the target process reports this area.
    pub open spec fn spec_id(self) -> i32 {
        match self {
            Area::Menu => -1i32,
            Area::Prologue => 0i32,
            Area::ForsakenCity => 1i32,
            Area::OldSite => 2i32,
            Area::CelestialResort => 3i32,
            Area::GoldenRidge => 4i32,
            Area::MirrorTemple => 5i32,
            Area::Reflection => 6i32,
            Area::TheSummit => 7i32,
            Area::Epilogue => 8i32,
            Area::Core => 9i32,
        }
    }

    #[verifier::when_used_as_spec(spec_id)]
    pub fn id(self) -> (r: i32)
        ensures
            r == self.spec_id(),
    {
        match self {
            Area::Menu => -1,
            Area::Prologue => 0,
            Area::ForsakenCity => 1,
            Area::OldSite => 2,
            Area::CelestialResort => 3,
            Area::GoldenRidge => 4,
            Area::MirrorTemple => 5,
            Area::Reflection => 6,
            Area::TheSummit => 7,
            Area::Epilogue => 8,
            Area::Core => 9,
        }
    }
}

/// The difficulty variant of an area. Checkpoint level tokens differ
/// between the A-side and the B/C-sides of the same checkpoint.
#[derive(Copy, Clone, PartialEq, Eq, Structural, Debug)]
pub enum AreaMode {
    ASide,
    BSide,
    CSide,
}

impl AreaMode {
    /// The id under which the target process reports this mode.
    pub open spec fn spec_id(self) -> i32 {
        match self {
            AreaMode::ASide => 0i32,
            AreaMode::BSide => 1i32,
            AreaMode::CSide => 2i32,
        }
    }

    #[verifier::when_used_as_spec(spec_id)]
    pub fn id(self) -> (r: i32)
        ensures
            r == self.spec_id(),
    {
        match self {
            AreaMode::ASide => 0,
            AreaMode::BSide => 1,
            AreaMode::CSide => 2,
        }
    }
}

/// Menu screens the game can sit on, by the id the target process reports.
#[derive(Copy, Clone, PartialEq, Eq, Structural, Debug)]
pub enum Menu {
    InGame,
    Intro,
    FileSelect,
    MainMenu,
    ChapterSelect,
    ChapterPanel,
    FileRename,
}

impl Menu {
    /// The id under which the target process reports this menu screen.
    pub open spec fn spec_id(self) -> i32 {
        match self {
            Menu::InGame => 0i32,
            Menu::Intro => 14i32,
            Menu::FileSelect => 60i32,
            Menu::MainMenu => 64i32,
            Menu::ChapterSelect => 80i32,
            Menu::ChapterPanel => 168i32,
            Menu::FileRename => 180i32,
        }
    }

    #[verifier::when_used_as_spec(spec_id)]
    pub fn id(self) -> (r: i32)
        ensures
            r == self.spec_id(),
    {
        match self {
            Menu::InGame => 0,
            Menu::Intro => 14,
            Menu::FileSelect => 60,
            Menu::MainMenu => 64,
            Menu::ChapterSelect => 80,
            Menu::ChapterPanel => 168,
            Menu::FileRename => 180,
        }
    }
}

/// The per-rule toggles the host persists for the user: one switch per split
/// rule, plus the choice between the chapter (level) timer and the file timer.
/// The host owns the UI for these; the engine reads them as plain booleans
/// once per tick.
#[derive(Copy, Clone, PartialEq, Eq, Structural, Debug)]
pub struct Settings {
    /// Use the chapter timer instead of the file timer.
    pub level_time: bool,
    /// Manual split (not evaluated by the engine; the host's hotkey fires it).
    pub manual: bool,
    /// Split on completing any chapter.
    pub chapter: bool,
    /// Split on entering a level (external trigger; not evaluated here).
    pub level_enter: bool,
    /// Split on exiting a level (external trigger; not evaluated here).
    pub level_exit: bool,
    /// Split on completing the prologue.
    pub prologue: bool,
    /// Split on completing chapter 1 (Forsaken City).
    pub chapter1: bool,
    /// Split on completing chapter 2 (Old Site).
    pub chapter2: bool,
    /// Split on completing chapter 3 (Celestial Resort).
    pub chapter3: bool,
    /// Split on completing chapter 4 (Golden Ridge).
    pub chapter4: bool,
    /// Split on completing chapter 5 (Mirror Temple).
    pub chapter5: bool,
    /// Split on completing chapter 6 (Reflection).
    pub chapter6: bool,
    /// Split on completing chapter 7 (The Summit).
    pub chapter7: bool,
    /// Split on completing the epilogue.
    pub epilogue: bool,
    /// Split on completing chapter 8 (Core).
    pub chapter8: bool,
    /// Chapter 1 checkpoint: Crossing (A) / Contraption (B).
    pub chapter1_checkpoint1: bool,
    /// Chapter 1 checkpoint: Chasm (A) / Scrap Pit (B).
    pub chapter1_checkpoint2: bool,
    /// Chapter 2 checkpoint: Intervention (A) / Combination Lock (B).
    pub chapter2_checkpoint1: bool,
    /// Chapter 2 checkpoint: Awake (A) / Dream Altar (B).
    pub chapter2_checkpoint2: bool,
    /// Chapter 3 checkpoint: Huge Mess (A) / Staff Quarters (B).
    pub chapter3_checkpoint1: bool,
    /// Chapter 3 checkpoint: Elevator Shaft (A) / Library (B).
    pub chapter3_checkpoint2: bool,
    /// Chapter 3 checkpoint: Presidential Suite (A) / Rooftop (B).
    pub chapter3_checkpoint3: bool,
    /// Chapter 4 checkpoint: Shrine (A) / Stepping Stones (B).
    pub chapter4_checkpoint1: bool,
    /// Chapter 4 checkpoint: Old Trail (A) / Gusty Canyon (B).
    pub chapter4_checkpoint2: bool,
    /// Chapter 4 checkpoint: Cliff Face (A) / Eye Of The Storm (B).
    pub chapter4_checkpoint3: bool,
    /// Chapter 5 checkpoint: Depths (A) / Central Chamber (B).
    pub chapter5_checkpoint1: bool,
    /// Chapter 5 checkpoint: Unravelling (A) / Through The Mirror (B).
    pub chapter5_checkpoint2: bool,
    /// Chapter 5 checkpoint: Search (A) / Mix Master (B).
    pub chapter5_checkpoint3: bool,
    /// Chapter 5 checkpoint: Rescue (A).
    pub chapter5_checkpoint4: bool,
    /// Chapter 6 checkpoint: Lake (A) / Reflection (B).
    pub chapter6_checkpoint1: bool,
    /// Chapter 6 checkpoint: Hollows (A) / Rock Bottom (B).
    pub chapter6_checkpoint2: bool,
    /// Chapter 6 checkpoint: Reflection (A) / Reprieve (B).
    pub chapter6_checkpoint3: bool,
    /// Chapter 6 checkpoint: Rock Bottom (A).
    pub chapter6_checkpoint4: bool,
    /// Chapter 6 checkpoint: Resolution (A).
    pub chapter6_checkpoint5: bool,
    /// Chapter 7 checkpoint: 500M.
    pub chapter7_checkpoint1: bool,
    /// Chapter 7 checkpoint: 1000M.
    pub chapter7_checkpoint2: bool,
    /// Chapter 7 checkpoint: 1500M.
    pub chapter7_checkpoint3: bool,
    /// Chapter 7 checkpoint: 2000M.
    pub chapter7_checkpoint4: bool,
    /// Chapter 7 checkpoint: 2500M.
    pub chapter7_checkpoint5: bool,
    /// Chapter 7 checkpoint: 3000M.
    pub chapter7_checkpoint6: bool,
    /// Chapter 8 checkpoint: Into The Core.
    pub chapter8_checkpoint1: bool,
    /// Chapter 8 checkpoint: Hot And Cold (A) / Burning Or Freezing (B).
    pub chapter8_checkpoint2: bool,
    /// Chapter 8 checkpoint: Heart Of The Mountain (A) / Heartbeat (B).
    pub chapter8_checkpoint3: bool,
    /// Chapter 1 cassette pickup (declared; not evaluated by the engine).
    pub chapter1_cassette: bool,
    /// Chapter 1 heart gem pickup (declared; not evaluated by the engine).
    pub chapter1_heartgem: bool,
    /// Chapter 2 cassette pickup (declared; not evaluated by the engine).
    pub chapter2_cassette: bool,
    /// Chapter 2 heart gem pickup (declared; not evaluated by the engine).
    pub chapter2_heartgem: bool,
    /// Chapter 3 cassette pickup (declared; not evaluated by the engine).
    pub chapter3_cassette: bool,
    /// Chapter 3 heart gem pickup (declared; not evaluated by the engine).
    pub chapter3_heartgem: bool,
    /// Chapter 4 cassette pickup (declared; not evaluated by the engine).
    pub chapter4_cassette: bool,
    /// Chapter 4 heart gem pickup (declared; not evaluated by the engine).
    pub chapter4_heartgem: bool,
    /// Chapter 5 cassette pickup (declared; not evaluated by the engine).
    pub chapter5_cassette: bool,
    /// Chapter 5 heart gem pickup (declared; not evaluated by the engine).
    pub chapter5_heartgem: bool,
    /// Chapter 6 cassette pickup (declared; not evaluated by the engine).
    pub chapter6_cassette: bool,
    /// Chapter 6 heart gem pickup (declared; not evaluated by the engine).
    pub chapter6_heartgem: bool,
    /// Chapter 7 cassette pickup (declared; not evaluated by the engine).
    pub chapter7_cassette: bool,
    /// Chapter 7 heart gem pickup (declared; not evaluated by the engine).
    pub chapter7_heartgem: bool,
    /// Chapter 8 cassette pickup (declared; not evaluated by the engine).
    pub chapter8_cassette: bool,
    /// Chapter 8 heart gem pickup (declared; not evaluated by the engine).
    pub chapter8_heartgem: bool,
}

/// A `Settings` value with every toggle off.
pub open spec fn spec_settings_all_off() -> Settings {
    Settings {
        level_time: false,
        manual: false,
        chapter: false,
        level_enter: false,
        level_exit: false,
        prologue: false,
        chapter1: false,
        chapter2: false,
        chapter3: false,
        chapter4: false,
        chapter5: false,
        chapter6: false,
        chapter7: false,
        epilogue: false,
        chapter8: false,
        chapter1_checkpoint1: false,
        chapter1_checkpoint2: false,
        chapter2_checkpoint1: false,
        chapter2_checkpoint2: false,
        chapter3_checkpoint1: false,
        chapter3_checkpoint2: false,
        chapter3_checkpoint3: false,
        chapter4_checkpoint1: false,
        chapter4_checkpoint2: false,
        chapter4_checkpoint3: false,
        chapter5_checkpoint1: false,
        chapter5_checkpoint2: false,
        chapter5_checkpoint3: false,
        chapter5_checkpoint4: false,
        chapter6_checkpoint1: false,
        chapter6_checkpoint2: false,
        chapter6_checkpoint3: false,
        chapter6_checkpoint4: false,
        chapter6_checkpoint5: false,
        chapter7_checkpoint1: false,
        chapter7_checkpoint2: false,
        chapter7_checkpoint3: false,
        chapter7_checkpoint4: false,
        chapter7_checkpoint5: false,
        chapter7_checkpoint6: false,
        chapter8_checkpoint1: false,
        chapter8_checkpoint2: false,
        chapter8_checkpoint3: false,
        chapter1_cassette: false,
        chapter1_heartgem: false,
        chapter2_cassette: false,
        chapter2_heartgem: false,
        chapter3_cassette: false,
        chapter3_heartgem: false,
        chapter4_cassette: false,
        chapter4_heartgem: false,
        chapter5_cassette: false,
        chapter5_heartgem: false,
        chapter6_cassette: false,
        chapter6_heartgem: false,
        chapter7_cassette: false,
        chapter7_heartgem: false,
        chapter8_cassette: false,
        chapter8_heartgem: false,
    }
}

impl Default for Settings {
    /// Every toggle starts off, as the host's settings surface defaults them.
    fn default() -> (r: Self)
        ensures
            r == spec_settings_all_off(),
    {
        Settings {
            level_time: false,
            manual: false,
            chapter: false,
            level_enter: false,
            level_exit: false,
            prologue: false,
            chapter1: false,
            chapter2: false,
            chapter3: false,
            chapter4: false,
            chapter5: false,
            chapter6: false,
            chapter7: false,
            epilogue: false,
            chapter8: false,
            chapter1_checkpoint1: false,
            chapter1_checkpoint2: false,
            chapter2_checkpoint1: false,
            chapter2_checkpoint2: false,
            chapter3_checkpoint1: false,
            chapter3_checkpoint2: false,
            chapter3_checkpoint3: false,
            chapter4_checkpoint1: false,
            chapter4_checkpoint2: false,
            chapter4_checkpoint3: false,
            chapter5_checkpoint1: false,
            chapter5_checkpoint2: false,
            chapter5_checkpoint3: false,
            chapter5_checkpoint4: false,
            chapter6_checkpoint1: false,
            chapter6_checkpoint2: false,
            chapter6_checkpoint3: false,
            chapter6_checkpoint4: false,
            chapter6_checkpoint5: false,
            chapter7_checkpoint1: false,
            chapter7_checkpoint2: false,
            chapter7_checkpoint3: false,
            chapter7_checkpoint4: false,
            chapter7_checkpoint5: false,
            chapter7_checkpoint6: false,
            chapter8_checkpoint1: false,
            chapter8_checkpoint2: false,
            chapter8_checkpoint3: false,
            chapter1_cassette: false,
            chapter1_heartgem: false,
            chapter2_cassette: false,
            chapter2_heartgem: false,
            chapter3_cassette: false,
            chapter3_heartgem: false,
            chapter4_cassette: false,
            chapter4_heartgem: false,
            chapter5_cassette: false,
            chapter5_heartgem: false,
            chapter6_cassette: false,
            chapter6_heartgem: false,
            chapter7_cassette: false,
            chapter7_heartgem: false,
            chapter8_cassette: false,
            chapter8_heartgem: false,
        }
    }
}

} // verus!
