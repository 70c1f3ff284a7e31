//! The split-detection state machine.
//!
//! Each tick the engine compares the fresh [`Snapshot`](crate::snapshot::Snapshot)
//! and the previous tick's [`RunState`] against the configured split rules
//! and decides whether the timer should advance a split. Chapter-complete
//! rules run a two-state machine (watching, then exiting the chapter);
//! checkpoint rules fire on an area id plus a mode-dependent level token,
//! debounced so one room entry fires at most once.

use vstd::prelude::*;
use vstd::string::StrSliceExecFns;
use crate::game_types::{Area, AreaMode, Settings};
use crate::snapshot::Snapshot;

verus! {

/// Whether two string slices hold the same characters.
#[verifier::loop_isolation(false)]
pub fn str_eq(a: &str, b: &str) -> (r: bool)
    ensures
        r == (a@ == b@),
{
    let an: usize = a.unicode_len();
    let bn: usize = b.unicode_len();
    if an != bn {
        proof {
            assert(a@.len() != b@.len());
        }
        return false;
    }
    let mut i: usize = 0;
    while i < an
        invariant
            an == a@.len(),
            an == b@.len(),
            0 <= i <= an,
            forall|j: int| 0 <= j < i ==> a@[j] == b@[j],
        decreases an - i,
    {
        if a.get_char(i) != b.get_char(i) {
            return false;
        }
        i = i + 1;
    }
    proof {
        assert(a@ =~= b@);
    }
    true
}

/// `p` is a prefix of `s`.
pub open spec fn spec_starts_with(s: Seq<char>, p: Seq<char>) -> bool {
    p.len() <= s.len() && s.take(p.len() as int) == p
}

/// Whether `p` is a prefix of `s`.
#[verifier::loop_isolation(false)]
pub fn str_starts_with(s: &str, p: &str) -> (r: bool)
    ensures
        r == spec_starts_with(s@, p@),
{
    let sn: usize = s.unicode_len();
    let pn: usize = p.unicode_len();
    if pn > sn {
        return false;
    }
    let mut i: usize = 0;
    while i < pn
        invariant
            sn == s@.len(),
            pn == p@.len(),
            pn <= sn,
            0 <= i <= pn,
            forall|j: int| 0 <= j < i ==> s@[j] == p@[j],
        decreases pn - i,
    {
        if s.get_char(i) != p.get_char(i) {
            proof {
                assert(s@.take(pn as int)[i as int] != p@[i as int]);
            }
            return false;
        }
        i = i + 1;
    }
    proof {
        assert(s@.take(pn as int) =~= p@);
    }
    true
}

/// The level token the rules are compared against: a token equal to the
/// one recorded last tick is replaced with the empty token, so repeated
/// identical reads never re-trigger a match.
pub open spec fn spec_debounced(level: Seq<char>, last: Seq<char>) -> Seq<char> {
    if level == last {
        Seq::empty()
    } else {
        level
    }
}

/// The per-session progress state of the engine, updated every tick.
pub struct RunState {
    /// The completion flag the previous tick saw.
    pub last_completed: bool,
    /// A chapter-complete rule matched and the engine now waits for the
    /// game to move past the completion screen.
    pub exiting_chapter: bool,
    /// The level token the previous tick saw, for the debounce.
    pub last_level: String,
    /// The previous tick looked like the start of a fresh run.
    pub reset_level: bool,
}

impl RunState {
    /// The state a session starts in.
    pub fn new() -> (r: RunState)
        ensures
            !r.last_completed,
            !r.exiting_chapter,
            r.last_level@ == Seq::<char>::empty(),
            !r.reset_level,
    {
        RunState {
            last_completed: false,
            exiting_chapter: false,
            last_level: String::new(),
            reset_level: false,
        }
    }
}

/// The credits guard: when the rule targets the final chapter, a level
/// token that begins with "credits" must not count as a fresh completion.
pub open spec fn spec_credits_guard(chapter_area: Area, level: Seq<char>) -> bool {
    chapter_area == Area::TheSummit ==> !spec_starts_with(level, "credits"@)
}

/// The exiting-chapter flag after one chapter rule is evaluated: a
/// watching rule arms when its area is current, the completion flag rose
/// this tick, and the credits guard holds; an armed rule stays armed.
pub open spec fn spec_chapter_exiting(
    exiting: bool,
    last_completed: bool,
    area_id: i32,
    chapter_area: Area,
    level: Seq<char>,
    completed: bool,
) -> bool {
    if !exiting {
        area_id == chapter_area.spec_id() && completed && !last_completed && spec_credits_guard(
            chapter_area,
            level,
        )
    } else {
        true
    }
}

/// Whether one chapter rule fires this tick: immediately on arming when
/// the chapter (level) timer is in use, otherwise on the tick the
/// completion flag falls again while the rule is armed.
pub open spec fn spec_chapter_fire(
    exiting: bool,
    last_completed: bool,
    area_id: i32,
    chapter_area: Area,
    level: Seq<char>,
    completed: bool,
    il_splits: bool,
) -> bool {
    if !exiting {
        spec_chapter_exiting(exiting, last_completed, area_id, chapter_area, level, completed)
            && il_splits
    } else {
        !completed && last_completed
    }
}

impl RunState {
    /// Evaluate one chapter-complete rule against this tick, moving the
    /// shared watching/exiting state machine one step.
    pub fn chapter_split(
        &mut self,
        area_id: i32,
        chapter_area: Area,
        level: &str,
        completed: bool,
        il_splits: bool,
    ) -> (r: bool)
        ensures
            final(self).last_completed == old(self).last_completed,
            final(self).last_level == old(self).last_level,
            final(self).reset_level == old(self).reset_level,
            final(self).exiting_chapter == spec_chapter_exiting(
                old(self).exiting_chapter,
                old(self).last_completed,
                area_id,
                chapter_area,
                level@,
                completed,
            ),
            r == spec_chapter_fire(
                old(self).exiting_chapter,
                old(self).last_completed,
                area_id,
                chapter_area,
                level@,
                completed,
                il_splits,
            ),
    {
        if !self.exiting_chapter {
            let not_in_credits = if chapter_area == Area::TheSummit {
                !str_starts_with(level, "credits")
            } else {
                true
            };
            self.exiting_chapter = area_id == chapter_area.id() && completed
                && !self.last_completed && not_in_credits;
            self.exiting_chapter && il_splits
        } else {
            !completed && self.last_completed
        }
    }
}

/// One chapter-complete rule: when `any_area` is set the rule matches
/// whatever area is current (the rule's own area stands in for the id).
#[derive(Copy, Clone, PartialEq, Eq, Structural, Debug)]
pub struct ChapterRule {
    /// The rule's toggle.
    pub enabled: bool,
    /// The chapter the rule is about.
    pub area: Area,
    /// Ignore the current area id and treat the rule's area as current.
    pub any_area: bool,
}

/// The chapter-complete rule table, in the order the rules are evaluated.
pub open spec fn spec_chapter_rules(s: Settings) -> Seq<ChapterRule> {
    seq![
        ChapterRule { enabled: s.chapter, area: Area::Prologue, any_area: true },
        ChapterRule { enabled: s.prologue, area: Area::Prologue, any_area: false },
        ChapterRule { enabled: s.chapter1, area: Area::ForsakenCity, any_area: false },
        ChapterRule { enabled: s.chapter2, area: Area::OldSite, any_area: false },
        ChapterRule { enabled: s.chapter3, area: Area::CelestialResort, any_area: false },
        ChapterRule { enabled: s.chapter4, area: Area::GoldenRidge, any_area: false },
        ChapterRule { enabled: s.chapter5, area: Area::MirrorTemple, any_area: false },
        ChapterRule { enabled: s.chapter6, area: Area::Reflection, any_area: false },
        ChapterRule { enabled: s.chapter7, area: Area::TheSummit, any_area: false },
        ChapterRule { enabled: s.epilogue, area: Area::Epilogue, any_area: false },
        ChapterRule { enabled: s.chapter8, area: Area::Core, any_area: false },
    ]
}

/// Build the chapter-complete rule table for this tick's settings.
pub fn chapter_rules(s: &Settings) -> (r: Vec<ChapterRule>)
    ensures
        r@ == spec_chapter_rules(*s),
{
    let mut v: Vec<ChapterRule> = Vec::new();
    v.push(ChapterRule { enabled: s.chapter, area: Area::Prologue, any_area: true });
    v.push(ChapterRule { enabled: s.prologue, area: Area::Prologue, any_area: false });
    v.push(ChapterRule { enabled: s.chapter1, area: Area::ForsakenCity, any_area: false });
    v.push(ChapterRule { enabled: s.chapter2, area: Area::OldSite, any_area: false });
    v.push(ChapterRule { enabled: s.chapter3, area: Area::CelestialResort, any_area: false });
    v.push(ChapterRule { enabled: s.chapter4, area: Area::GoldenRidge, any_area: false });
    v.push(ChapterRule { enabled: s.chapter5, area: Area::MirrorTemple, any_area: false });
    v.push(ChapterRule { enabled: s.chapter6, area: Area::Reflection, any_area: false });
    v.push(ChapterRule { enabled: s.chapter7, area: Area::TheSummit, any_area: false });
    v.push(ChapterRule { enabled: s.epilogue, area: Area::Epilogue, any_area: false });
    v.push(ChapterRule { enabled: s.chapter8, area: Area::Core, any_area: false });
    proof {
        assert(v@ =~= spec_chapter_rules(*s));
    }
    v
}

/// The watching/exiting flag and the fire decision after the whole
/// chapter-rule table is evaluated in order against one tick, sharing the
/// one exiting-chapter flag as the rules do.
pub open spec fn spec_chapter_pass(
    rules: Seq<ChapterRule>,
    exiting: bool,
    last_completed: bool,
    area_id: i32,
    level: Seq<char>,
    completed: bool,
    il_splits: bool,
) -> (bool, bool)
    decreases rules.len(),
{
    if rules.len() == 0 {
        (exiting, false)
    } else {
        let r0 = rules[0];
        let step = if r0.enabled {
            let aid = if r0.any_area {
                r0.area.spec_id()
            } else {
                area_id
            };
            (
                spec_chapter_exiting(exiting, last_completed, aid, r0.area, level, completed),
                spec_chapter_fire(
                    exiting,
                    last_completed,
                    aid,
                    r0.area,
                    level,
                    completed,
                    il_splits,
                ),
            )
        } else {
            (exiting, false)
        };
        let rest = spec_chapter_pass(
            rules.drop_first(),
            step.0,
            last_completed,
            area_id,
            level,
            completed,
            il_splits,
        );
        (rest.0, step.1 || rest.1)
    }
}

/// Evaluate every enabled chapter-complete rule, in table order, against
/// this tick. Returns whether any of them fires.
#[verifier::loop_isolation(false)]
pub fn chapter_pass(
    state: &mut RunState,
    rules: &Vec<ChapterRule>,
    area_id: i32,
    level: &str,
    completed: bool,
    il_splits: bool,
) -> (fire: bool)
    ensures
        final(state).last_completed == old(state).last_completed,
        final(state).last_level == old(state).last_level,
        final(state).reset_level == old(state).reset_level,
        ({
            let pass = spec_chapter_pass(
                rules@,
                old(state).exiting_chapter,
                old(state).last_completed,
                area_id,
                level@,
                completed,
                il_splits,
            );
            final(state).exiting_chapter == pass.0 && fire == pass.1
        }),
{
    let ghost whole = spec_chapter_pass(
        rules@,
        state.exiting_chapter,
        state.last_completed,
        area_id,
        level@,
        completed,
        il_splits,
    );
    proof {
        assert(rules@.skip(0) =~= rules@);
    }
    let mut fire = false;
    let n: usize = rules.len();
    let mut i: usize = 0;
    while i < n
        invariant
            n == rules@.len(),
            0 <= i <= n,
            state.last_completed == old(state).last_completed,
            state.last_level == old(state).last_level,
            state.reset_level == old(state).reset_level,
            whole == ({
                let rest = spec_chapter_pass(
                    rules@.skip(i as int),
                    state.exiting_chapter,
                    state.last_completed,
                    area_id,
                    level@,
                    completed,
                    il_splits,
                );
                (rest.0, fire || rest.1)
            }),
        decreases n - i,
    {
        proof {
            assert(rules@.skip(i as int).drop_first() =~= rules@.skip(i + 1));
            assert(rules@.skip(i as int)[0] == rules@[i as int]);
        }
        let r = rules[i];
        if r.enabled {
            let aid = if r.any_area {
                r.area.id()
            } else {
                area_id
            };
            let f = state.chapter_split(aid, r.area, level, completed, il_splits);
            fire = fire || f;
        }
        i = i + 1;
    }
    proof {
        assert(rules@.skip(n as int) =~= Seq::<ChapterRule>::empty());
    }
    fire
}

/// One checkpoint rule: fires on its area when the debounced level token
/// equals the token for the current difficulty mode. Where a checkpoint
/// keeps one token across modes the two fields hold the same token.
pub struct CheckpointRule {
    /// The rule's toggle.
    pub enabled: bool,
    /// The area the checkpoint lies in.
    pub area: Area,
    /// The level token that opens the checkpoint on the A-side.
    pub token_a: String,
    /// The level token that opens the checkpoint on the B- and C-sides.
    pub token_b: String,
}

/// The mathematical shape of a checkpoint rule, with tokens as character
/// sequences.
pub struct CheckpointRuleModel {
    /// The rule's toggle.
    pub enabled: bool,
    /// The area the checkpoint lies in.
    pub area: Area,
    /// The A-side level token.
    pub token_a: Seq<char>,
    /// The B- and C-side level token.
    pub token_b: Seq<char>,
}

impl View for CheckpointRule {
    type V = CheckpointRuleModel;

    open spec fn view(&self) -> CheckpointRuleModel {
        CheckpointRuleModel {
            enabled: self.enabled,
            area: self.area,
            token_a: self.token_a@,
            token_b: self.token_b@,
        }
    }
}

/// The models of a checkpoint-rule table.
pub open spec fn models_of(v: Seq<CheckpointRule>) -> Seq<CheckpointRuleModel> {
    v.map_values(|c: CheckpointRule| c@)
}

/// The checkpoint rules of chapter 1 (ForsakenCity).
pub open spec fn spec_checkpoint_rules_ch1(s: Settings) -> Seq<CheckpointRuleModel> {
    seq![
        (CheckpointRuleModel {
            enabled: s.chapter1_checkpoint1,
            area: Area::ForsakenCity,
            token_a: "6"@,
            token_b: "04"@,
        }),
        (CheckpointRuleModel {
            enabled: s.chapter1_checkpoint2,
            area: Area::ForsakenCity,
            token_a: "9b"@,
            token_b: "08"@,
        }),
    ]
}

/// Build the checkpoint rules of chapter 1 (ForsakenCity).
fn checkpoint_rules_ch1(s: &Settings) -> (r: Vec<CheckpointRule>)
    ensures
        models_of(r@) == spec_checkpoint_rules_ch1(*s),
{
    let v: Vec<CheckpointRule> = vec![
        CheckpointRule {
            enabled: s.chapter1_checkpoint1,
            area: Area::ForsakenCity,
            token_a: "6".to_owned(),
            token_b: "04".to_owned(),
        },
        CheckpointRule {
            enabled: s.chapter1_checkpoint2,
            area: Area::ForsakenCity,
            token_a: "9b".to_owned(),
            token_b: "08".to_owned(),
        },
    ];
    proof {
        assert(models_of(v@) =~= spec_checkpoint_rules_ch1(*s));
    }
    v
}

/// The checkpoint rules of chapter 2 (OldSite).
pub open spec fn spec_checkpoint_rules_ch2(s: Settings) -> Seq<CheckpointRuleModel> {
    seq![
        (CheckpointRuleModel {
            enabled: s.chapter2_checkpoint1,
            area: Area::OldSite,
            token_a: "3"@,
            token_b: "03"@,
        }),
        (CheckpointRuleModel {
            enabled: s.chapter2_checkpoint2,
            area: Area::OldSite,
            token_a: "end_3"@,
            token_b: "08b"@,
        }),
    ]
}

/// Build the checkpoint rules of chapter 2 (OldSite).
fn checkpoint_rules_ch2(s: &Settings) -> (r: Vec<CheckpointRule>)
    ensures
        models_of(r@) == spec_checkpoint_rules_ch2(*s),
{
    let v: Vec<CheckpointRule> = vec![
        CheckpointRule {
            enabled: s.chapter2_checkpoint1,
            area: Area::OldSite,
            token_a: "3".to_owned(),
            token_b: "03".to_owned(),
        },
        CheckpointRule {
            enabled: s.chapter2_checkpoint2,
            area: Area::OldSite,
            token_a: "end_3".to_owned(),
            token_b: "08b".to_owned(),
        },
    ];
    proof {
        assert(models_of(v@) =~= spec_checkpoint_rules_ch2(*s));
    }
    v
}

/// The checkpoint rules of chapter 3 (CelestialResort).
pub open spec fn spec_checkpoint_rules_ch3(s: Settings) -> Seq<CheckpointRuleModel> {
    seq![
        (CheckpointRuleModel {
            enabled: s.chapter3_checkpoint1,
            area: Area::CelestialResort,
            token_a: "08-a"@,
            token_b: "06"@,
        }),
        (CheckpointRuleModel {
            enabled: s.chapter3_checkpoint2,
            area: Area::CelestialResort,
            token_a: "09-d"@,
            token_b: "11"@,
        }),
        (CheckpointRuleModel {
            enabled: s.chapter3_checkpoint3,
            area: Area::CelestialResort,
            token_a: "00-d"@,
            token_b: "16"@,
        }),
    ]
}

/// Build the checkpoint rules of chapter 3 (CelestialResort).
fn checkpoint_rules_ch3(s: &Settings) -> (r: Vec<CheckpointRule>)
    ensures
        models_of(r@) == spec_checkpoint_rules_ch3(*s),
{
    let v: Vec<CheckpointRule> = vec![
        CheckpointRule {
            enabled: s.chapter3_checkpoint1,
            area: Area::CelestialResort,
            token_a: "08-a".to_owned(),
            token_b: "06".to_owned(),
        },
        CheckpointRule {
            enabled: s.chapter3_checkpoint2,
            area: Area::CelestialResort,
            token_a: "09-d".to_owned(),
            token_b: "11".to_owned(),
        },
        CheckpointRule {
            enabled: s.chapter3_checkpoint3,
            area: Area::CelestialResort,
            token_a: "00-d".to_owned(),
            token_b: "16".to_owned(),
        },
    ];
    proof {
        assert(models_of(v@) =~= spec_checkpoint_rules_ch3(*s));
    }
    v
}

/// The checkpoint rules of chapter 4 (GoldenRidge).
pub open spec fn spec_checkpoint_rules_ch4(s: Settings) -> Seq<CheckpointRuleModel> {
    seq![
        (CheckpointRuleModel {
            enabled: s.chapter4_checkpoint1,
            area: Area::GoldenRidge,
            token_a: "b-00"@,
            token_b: "b-00"@,
        }),
        (CheckpointRuleModel {
            enabled: s.chapter4_checkpoint2,
            area: Area::GoldenRidge,
            token_a: "c-00"@,
            token_b: "c-00"@,
        }),
        (CheckpointRuleModel {
            enabled: s.chapter4_checkpoint3,
            area: Area::GoldenRidge,
            token_a: "d-00"@,
            token_b: "d-00"@,
        }),
    ]
}

/// Build the checkpoint rules of chapter 4 (GoldenRidge).
fn checkpoint_rules_ch4(s: &Settings) -> (r: Vec<CheckpointRule>)
    ensures
        models_of(r@) == spec_checkpoint_rules_ch4(*s),
{
    let v: Vec<CheckpointRule> = vec![
        CheckpointRule {
            enabled: s.chapter4_checkpoint1,
            area: Area::GoldenRidge,
            token_a: "b-00".to_owned(),
            token_b: "b-00".to_owned(),
        },
        CheckpointRule {
            enabled: s.chapter4_checkpoint2,
            area: Area::GoldenRidge,
            token_a: "c-00".to_owned(),
            token_b: "c-00".to_owned(),
        },
        CheckpointRule {
            enabled: s.chapter4_checkpoint3,
            area: Area::GoldenRidge,
            token_a: "d-00".to_owned(),
            token_b: "d-00".to_owned(),
        },
    ];
    proof {
        assert(models_of(v@) =~= spec_checkpoint_rules_ch4(*s));
    }
    v
}

/// The checkpoint rules of chapter 5 (MirrorTemple).
pub open spec fn spec_checkpoint_rules_ch5(s: Settings) -> Seq<CheckpointRuleModel> {
    seq![
        (CheckpointRuleModel {
            enabled: s.chapter5_checkpoint1,
            area: Area::MirrorTemple,
            token_a: "b-00"@,
            token_b: "b-00"@,
        }),
        (CheckpointRuleModel {
            enabled: s.chapter5_checkpoint2,
            area: Area::MirrorTemple,
            token_a: "c-00"@,
            token_b: "c-00"@,
        }),
        (CheckpointRuleModel {
            enabled: s.chapter5_checkpoint3,
            area: Area::MirrorTemple,
            token_a: "d-00"@,
            token_b: "d-00"@,
        }),
        (CheckpointRuleModel {
            enabled: s.chapter5_checkpoint4,
            area: Area::MirrorTemple,
            token_a: "e-00"@,
            token_b: "e-00"@,
        }),
    ]
}

/// Build the checkpoint rules of chapter 5 (MirrorTemple).
fn checkpoint_rules_ch5(s: &Settings) -> (r: Vec<CheckpointRule>)
    ensures
        models_of(r@) == spec_checkpoint_rules_ch5(*s),
{
    let v: Vec<CheckpointRule> = vec![
        CheckpointRule {
            enabled: s.chapter5_checkpoint1,
            area: Area::MirrorTemple,
            token_a: "b-00".to_owned(),
            token_b: "b-00".to_owned(),
        },
        CheckpointRule {
            enabled: s.chapter5_checkpoint2,
            area: Area::MirrorTemple,
            token_a: "c-00".to_owned(),
            token_b: "c-00".to_owned(),
        },
        CheckpointRule {
            enabled: s.chapter5_checkpoint3,
            area: Area::MirrorTemple,
            token_a: "d-00".to_owned(),
            token_b: "d-00".to_owned(),
        },
        CheckpointRule {
            enabled: s.chapter5_checkpoint4,
            area: Area::MirrorTemple,
            token_a: "e-00".to_owned(),
            token_b: "e-00".to_owned(),
        },
    ];
    proof {
        assert(models_of(v@) =~= spec_checkpoint_rules_ch5(*s));
    }
    v
}

/// The checkpoint rules of chapter 6 (Reflection).
pub open spec fn spec_checkpoint_rules_ch6(s: Settings) -> Seq<CheckpointRuleModel> {
    seq![
        (CheckpointRuleModel {
            enabled: s.chapter6_checkpoint1,
            area: Area::Reflection,
            token_a: "00"@,
            token_b: "b-00"@,
        }),
        (CheckpointRuleModel {
            enabled: s.chapter6_checkpoint2,
            area: Area::Reflection,
            token_a: "04"@,
            token_b: "c-00"@,
        }),
        (CheckpointRuleModel {
            enabled: s.chapter6_checkpoint3,
            area: Area::Reflection,
            token_a: "b-00"@,
            token_b: "d-00"@,
        }),
        (CheckpointRuleModel {
            enabled: s.chapter6_checkpoint4,
            area: Area::Reflection,
            token_a: "boss-00"@,
            token_b: "boss-00"@,
        }),
        (CheckpointRuleModel {
            enabled: s.chapter6_checkpoint5,
            area: Area::Reflection,
            token_a: "after-00"@,
            token_b: "after-00"@,
        }),
    ]
}

/// Build the checkpoint rules of chapter 6 (Reflection).
fn checkpoint_rules_ch6(s: &Settings) -> (r: Vec<CheckpointRule>)
    ensures
        models_of(r@) == spec_checkpoint_rules_ch6(*s),
{
    let v: Vec<CheckpointRule> = vec![
        CheckpointRule {
            enabled: s.chapter6_checkpoint1,
            area: Area::Reflection,
            token_a: "00".to_owned(),
            token_b: "b-00".to_owned(),
        },
        CheckpointRule {
            enabled: s.chapter6_checkpoint2,
            area: Area::Reflection,
            token_a: "04".to_owned(),
            token_b: "c-00".to_owned(),
        },
        CheckpointRule {
            enabled: s.chapter6_checkpoint3,
            area: Area::Reflection,
            token_a: "b-00".to_owned(),
            token_b: "d-00".to_owned(),
        },
        CheckpointRule {
            enabled: s.chapter6_checkpoint4,
            area: Area::Reflection,
            token_a: "boss-00".to_owned(),
            token_b: "boss-00".to_owned(),
        },
        CheckpointRule {
            enabled: s.chapter6_checkpoint5,
            area: Area::Reflection,
            token_a: "after-00".to_owned(),
            token_b: "after-00".to_owned(),
        },
    ];
    proof {
        assert(models_of(v@) =~= spec_checkpoint_rules_ch6(*s));
    }
    v
}

/// The checkpoint rules of chapter 7 (TheSummit).
pub open spec fn spec_checkpoint_rules_ch7(s: Settings) -> Seq<CheckpointRuleModel> {
    seq![
        (CheckpointRuleModel {
            enabled: s.chapter7_checkpoint1,
            area: Area::TheSummit,
            token_a: "b-00"@,
            token_b: "b-00"@,
        }),
        (CheckpointRuleModel {
            enabled: s.chapter7_checkpoint2,
            area: Area::TheSummit,
            token_a: "c-00"@,
            token_b: "c-01"@,
        }),
        (CheckpointRuleModel {
            enabled: s.chapter7_checkpoint3,
            area: Area::TheSummit,
            token_a: "d-00"@,
            token_b: "d-00"@,
        }),
        (CheckpointRuleModel {
            enabled: s.chapter7_checkpoint4,
            area: Area::TheSummit,
            token_a: "e-00b"@,
            token_b: "e-00"@,
        }),
        (CheckpointRuleModel {
            enabled: s.chapter7_checkpoint5,
            area: Area::TheSummit,
            token_a: "f-00"@,
            token_b: "f-00"@,
        }),
        (CheckpointRuleModel {
            enabled: s.chapter7_checkpoint6,
            area: Area::TheSummit,
            token_a: "g-00"@,
            token_b: "g-00"@,
        }),
    ]
}

/// Build the checkpoint rules of chapter 7 (TheSummit).
fn checkpoint_rules_ch7(s: &Settings) -> (r: Vec<CheckpointRule>)
    ensures
        models_of(r@) == spec_checkpoint_rules_ch7(*s),
{
    let v: Vec<CheckpointRule> = vec![
        CheckpointRule {
            enabled: s.chapter7_checkpoint1,
            area: Area::TheSummit,
            token_a: "b-00".to_owned(),
            token_b: "b-00".to_owned(),
        },
        CheckpointRule {
            enabled: s.chapter7_checkpoint2,
            area: Area::TheSummit,
            token_a: "c-00".to_owned(),
            token_b: "c-01".to_owned(),
        },
        CheckpointRule {
            enabled: s.chapter7_checkpoint3,
            area: Area::TheSummit,
            token_a: "d-00".to_owned(),
            token_b: "d-00".to_owned(),
        },
        CheckpointRule {
            enabled: s.chapter7_checkpoint4,
            area: Area::TheSummit,
            token_a: "e-00b".to_owned(),
            token_b: "e-00".to_owned(),
        },
        CheckpointRule {
            enabled: s.chapter7_checkpoint5,
            area: Area::TheSummit,
            token_a: "f-00".to_owned(),
            token_b: "f-00".to_owned(),
        },
        CheckpointRule {
            enabled: s.chapter7_checkpoint6,
            area: Area::TheSummit,
            token_a: "g-00".to_owned(),
            token_b: "g-00".to_owned(),
        },
    ];
    proof {
        assert(models_of(v@) =~= spec_checkpoint_rules_ch7(*s));
    }
    v
}

/// The checkpoint rules of chapter 8 (Core).
pub open spec fn spec_checkpoint_rules_ch8(s: Settings) -> Seq<CheckpointRuleModel> {
    seq![
        (CheckpointRuleModel {
            enabled: s.chapter8_checkpoint1,
            area: Area::Core,
            token_a: "a-00"@,
            token_b: "a-00"@,
        }),
        (CheckpointRuleModel {
            enabled: s.chapter8_checkpoint2,
            area: Area::Core,
            token_a: "c-00"@,
            token_b: "b-00"@,
        }),
        (CheckpointRuleModel {
            enabled: s.chapter8_checkpoint3,
            area: Area::Core,
            token_a: "d-00"@,
            token_b: "c-01"@,
        }),
    ]
}

/// Build the checkpoint rules of chapter 8 (Core).
fn checkpoint_rules_ch8(s: &Settings) -> (r: Vec<CheckpointRule>)
    ensures
        models_of(r@) == spec_checkpoint_rules_ch8(*s),
{
    let v: Vec<CheckpointRule> = vec![
        CheckpointRule {
            enabled: s.chapter8_checkpoint1,
            area: Area::Core,
            token_a: "a-00".to_owned(),
            token_b: "a-00".to_owned(),
        },
        CheckpointRule {
            enabled: s.chapter8_checkpoint2,
            area: Area::Core,
            token_a: "c-00".to_owned(),
            token_b: "b-00".to_owned(),
        },
        CheckpointRule {
            enabled: s.chapter8_checkpoint3,
            area: Area::Core,
            token_a: "d-00".to_owned(),
            token_b: "c-01".to_owned(),
        },
    ];
    proof {
        assert(models_of(v@) =~= spec_checkpoint_rules_ch8(*s));
    }
    v
}

/// The checkpoint rule table: the chapters' checkpoint rules in order.
pub open spec fn spec_checkpoint_rules(s: Settings) -> Seq<CheckpointRuleModel> {
    spec_checkpoint_rules_ch1(s) + spec_checkpoint_rules_ch2(s) + spec_checkpoint_rules_ch3(s)
        + spec_checkpoint_rules_ch4(s) + spec_checkpoint_rules_ch5(s) + spec_checkpoint_rules_ch6(
    s) + spec_checkpoint_rules_ch7(s) + spec_checkpoint_rules_ch8(s)
}

/// Build the checkpoint rule table for this tick's settings.
pub fn checkpoint_rules(s: &Settings) -> (r: Vec<CheckpointRule>)
    ensures
        models_of(r@) == spec_checkpoint_rules(*s),
{
    let mut v = checkpoint_rules_ch1(s);
    let mut v2 = checkpoint_rules_ch2(s);
    v.append(&mut v2);
    let mut v3 = checkpoint_rules_ch3(s);
    v.append(&mut v3);
    let mut v4 = checkpoint_rules_ch4(s);
    v.append(&mut v4);
    let mut v5 = checkpoint_rules_ch5(s);
    v.append(&mut v5);
    let mut v6 = checkpoint_rules_ch6(s);
    v.append(&mut v6);
    let mut v7 = checkpoint_rules_ch7(s);
    v.append(&mut v7);
    let mut v8 = checkpoint_rules_ch8(s);
    v.append(&mut v8);
    proof {
        assert(models_of(v@) =~= spec_checkpoint_rules(*s));
    }
    v
}

/// Whether one checkpoint rule matches this tick: its area is current and
/// the debounced level token equals the token for the current mode.
pub open spec fn spec_checkpoint_match(
    r: CheckpointRuleModel,
    area_id: i32,
    mode: i32,
    level: Seq<char>,
) -> bool {
    r.enabled && area_id == r.area.spec_id() && level == (if mode == AreaMode::ASide.spec_id() {
        r.token_a
    } else {
        r.token_b
    })
}

/// Whether any checkpoint rule of the table matches this tick.
pub open spec fn spec_checkpoint_fire(
    rules: Seq<CheckpointRuleModel>,
    area_id: i32,
    mode: i32,
    level: Seq<char>,
) -> bool {
    exists|j: int|
        0 <= j < rules.len() && spec_checkpoint_match(#[trigger] rules[j], area_id, mode, level)
}

/// Evaluate one checkpoint rule against this tick.
pub fn checkpoint_match(rule: &CheckpointRule, area_id: i32, mode: i32, level: &str) -> (r: bool)
    ensures
        r == spec_checkpoint_match(rule@, area_id, mode, level@),
{
    if !rule.enabled {
        return false;
    }
    if area_id != rule.area.id() {
        return false;
    }
    let tok: &str = if mode == AreaMode::ASide.id() {
        rule.token_a.as_str()
    } else {
        rule.token_b.as_str()
    };
    str_eq(level, tok)
}

/// Evaluate every checkpoint rule of the table against this tick. Returns
/// whether any of them matches.
#[verifier::loop_isolation(false)]
pub fn checkpoint_pass(rules: &Vec<CheckpointRule>, area_id: i32, mode: i32, level: &str) -> (fire:
    bool)
    ensures
        fire == spec_checkpoint_fire(models_of(rules@), area_id, mode, level@),
{
    let mut fire = false;
    let n: usize = rules.len();
    let mut i: usize = 0;
    while i < n
        invariant
            n == rules@.len(),
            0 <= i <= n,
            fire == exists|j: int|
                0 <= j < i && spec_checkpoint_match(
                    #[trigger] models_of(rules@)[j],
                    area_id,
                    mode,
                    level@,
                ),
        decreases n - i,
    {
        let f = checkpoint_match(&rules[i], area_id, mode, level);
        proof {
            assert(models_of(rules@)[i as int] == rules@[i as int]@);
        }
        fire = fire || f;
        i = i + 1;
    }
    fire
}

/// The engine's decision for one tick: whether a split fires, and what the
/// exiting-chapter flag is after the chapter rules ran (before the fire
/// clears it). The inputs are the previous tick's state and this tick's
/// snapshot fields.
pub open spec fn spec_split_decision(
    st: RunState,
    settings: Settings,
    completed: bool,
    area_id: i32,
    mode: i32,
    level: Seq<char>,
) -> (bool, bool) {
    let level_cmp = spec_debounced(level, st.last_level@);
    let pass = spec_chapter_pass(
        spec_chapter_rules(settings),
        st.exiting_chapter,
        st.last_completed,
        area_id,
        level_cmp,
        completed,
        settings.level_time,
    );
    let fire = pass.1 || spec_checkpoint_fire(
        spec_checkpoint_rules(settings),
        area_id,
        mode,
        level_cmp,
    );
    (fire, pass.0)
}

impl RunState {
    /// Evaluate every enabled split rule against this tick and update the
    /// progress state: the debounce memory, the completion-flag memory,
    /// and the exiting-chapter flag (cleared when a split fires).
    pub fn should_split(&mut self, settings: &Settings, snap: &Snapshot) -> (r: bool)
        ensures
            ({
                let d = spec_split_decision(
                    *old(self),
                    *settings,
                    snap.completed,
                    snap.area_id,
                    snap.area_difficulty,
                    snap.level@,
                );
                &&& r == d.0
                &&& final(self).last_level@ == snap.level@
                &&& final(self).last_completed == snap.completed
                &&& final(self).exiting_chapter == (if d.0 {
                    false
                } else {
                    d.1
                })
                &&& final(self).reset_level == old(self).reset_level
            }),
    {
        let completed = snap.completed;
        let area_id = snap.area_id;
        let level: String = if str_eq(snap.level.as_str(), self.last_level.as_str()) {
            String::new()
        } else {
            self.last_level = snap.level.clone();
            snap.level.clone()
        };
        let crules = chapter_rules(settings);
        let fire_chapter = chapter_pass(
            self,
            &crules,
            area_id,
            level.as_str(),
            completed,
            settings.level_time,
        );
        let cprules = checkpoint_rules(settings);
        let fire_checkpoint = checkpoint_pass(
            &cprules,
            area_id,
            snap.area_difficulty,
            level.as_str(),
        );
        let fire = fire_chapter || fire_checkpoint;
        self.last_completed = completed;
        if fire {
            self.exiting_chapter = false;
        }
        fire
    }
}

/// Milliseconds in a count of 100-nanosecond ticks, rounded toward zero
/// as the game's own timer arithmetic rounds.
pub open spec fn spec_ticks_to_ms(t: int) -> int {
    if t >= 0 {
        t / 10000
    } else {
        -((-t) / 10000)
    }
}

/// Convert a count of 100-nanosecond ticks to whole milliseconds.
pub fn ticks_to_ms(t: i64) -> (r: i64)
    ensures
        r as int == spec_ticks_to_ms(t as int),
{
    if t >= 0 {
        let q: u64 = (t as u64) / 10000;
        q as i64
    } else {
        let m: u64 = ((-(t + 1)) as u64) + 1;
        let q: u64 = m / 10000;
        proof {
            assert(m == -(t as int));
            assert(q * 10000 <= m) by (nonlinear_arith)
                requires
                    q == m / 10000,
            ;
        }
        -(q as i64)
    }
}

/// What the host must do after one tick: report the elapsed time, begin a
/// fresh run (reset, start, pause automatic accumulation), advance a split.
#[derive(Copy, Clone, PartialEq, Eq, Structural, Debug)]
pub struct TickActions {
    /// The elapsed time to hand the timer, in milliseconds: the chapter
    /// timer's or the file timer's, as the settings choose.
    pub game_time_ms: i64,
    /// A fresh run was detected this tick: reset and start the timer and
    /// pause its automatic accumulation.
    pub new_run: bool,
    /// A split rule fired this tick: advance the split.
    pub split: bool,
}

/// A fresh run is detected when the chosen timer has just started (within
/// its first tenth of a second), a real area is current, and a level token
/// is present.
pub open spec fn spec_fresh_run(ms: int, area_id: i32, level: Seq<char>) -> bool {
    0 <= ms <= 100 && 0 <= area_id < 256 && level.len() != 0
}

impl RunState {
    /// Run one tick of the engine over an already-decoded snapshot:
    /// compute the elapsed time to report, detect the start of a fresh
    /// run, and evaluate the split rules.
    pub fn update(&mut self, settings: &Settings, snap: &Snapshot) -> (acts: TickActions)
        ensures
            ({
                let ticks = if settings.level_time {
                    snap.level_ticks
                } else {
                    snap.game_ticks
                };
                let ms = spec_ticks_to_ms(ticks as int);
                let fresh = spec_fresh_run(ms, snap.area_id, snap.level@);
                let d = spec_split_decision(
                    *old(self),
                    *settings,
                    snap.completed,
                    snap.area_id,
                    snap.area_difficulty,
                    snap.level@,
                );
                &&& acts.game_time_ms as int == ms
                &&& acts.new_run == (fresh && !old(self).reset_level)
                &&& acts.split == d.0
                &&& final(self).last_level@ == snap.level@
                &&& final(self).last_completed == snap.completed
                &&& final(self).exiting_chapter == (if d.0 {
                    false
                } else {
                    d.1
                })
                &&& final(self).reset_level == fresh
            }),
    {
        let ticks: i64 = if settings.level_time {
            snap.level_ticks
        } else {
            snap.game_ticks
        };
        let ms = ticks_to_ms(ticks);
        let fresh = ms >= 0 && ms <= 100 && snap.area_id >= 0 && snap.area_id < 256
            && !snap.level.as_str().is_empty();
        let new_run = fresh && !self.reset_level;
        self.reset_level = fresh;
        let split = self.should_split(settings, snap);
        TickActions { game_time_ms: ms, new_run, split }
    }
}

/// Debounce law: whatever state one tick leaves behind, it records the
/// level token it saw, so a second tick that reads the same token compares
/// the rules against the empty token, while a tick that reads a different
/// token compares against that token unchanged.
/// No checkpoint rule carries an empty token, so the empty comparison
/// input the debounce produces never matches one.
proof fn lemma_checkpoint_tokens_nonempty(s: Settings)
    ensures
        forall|j: int|
            0 <= j < spec_checkpoint_rules(s).len() ==> (#[trigger] spec_checkpoint_rules(s)[j]).token_a.len() > 0
                && spec_checkpoint_rules(s)[j].token_b.len() > 0,
{
    reveal_strlit("6");
    reveal_strlit("04");
    reveal_strlit("9b");
    reveal_strlit("08");
    reveal_strlit("3");
    reveal_strlit("03");
    reveal_strlit("end_3");
    reveal_strlit("08b");
    reveal_strlit("08-a");
    reveal_strlit("06");
    reveal_strlit("09-d");
    reveal_strlit("11");
    reveal_strlit("00-d");
    reveal_strlit("16");
    reveal_strlit("b-00");
    reveal_strlit("c-00");
    reveal_strlit("d-00");
    reveal_strlit("e-00");
    reveal_strlit("00");
    reveal_strlit("boss-00");
    reveal_strlit("after-00");
    reveal_strlit("c-01");
    reveal_strlit("e-00b");
    reveal_strlit("f-00");
    reveal_strlit("g-00");
    reveal_strlit("a-00");
    assert forall|j: int| 0 <= j < spec_checkpoint_rules(s).len() implies (
    #[trigger] spec_checkpoint_rules(s)[j]).token_a.len() > 0 && spec_checkpoint_rules(
        s,
    )[j].token_b.len() > 0 by {
        let r1 = spec_checkpoint_rules_ch1(s);
        let r2 = spec_checkpoint_rules_ch2(s);
        let r3 = spec_checkpoint_rules_ch3(s);
        let r4 = spec_checkpoint_rules_ch4(s);
        let r5 = spec_checkpoint_rules_ch5(s);
        let r6 = spec_checkpoint_rules_ch6(s);
        let r7 = spec_checkpoint_rules_ch7(s);
        let r8 = spec_checkpoint_rules_ch8(s);
        assert(spec_checkpoint_rules(s) =~= r1 + r2 + r3 + r4 + r5 + r6 + r7 + r8);
        assert(forall|i: int| 0 <= i < r1.len() ==> (#[trigger] r1[i]).token_a.len() > 0 && r1[i].token_b.len() > 0);
        assert(forall|i: int| 0 <= i < r2.len() ==> (#[trigger] r2[i]).token_a.len() > 0 && r2[i].token_b.len() > 0);
        assert(forall|i: int| 0 <= i < r3.len() ==> (#[trigger] r3[i]).token_a.len() > 0 && r3[i].token_b.len() > 0);
        assert(forall|i: int| 0 <= i < r4.len() ==> (#[trigger] r4[i]).token_a.len() > 0 && r4[i].token_b.len() > 0);
        assert(forall|i: int| 0 <= i < r5.len() ==> (#[trigger] r5[i]).token_a.len() > 0 && r5[i].token_b.len() > 0);
        assert(forall|i: int| 0 <= i < r6.len() ==> (#[trigger] r6[i]).token_a.len() > 0 && r6[i].token_b.len() > 0);
        assert(forall|i: int| 0 <= i < r7.len() ==> (#[trigger] r7[i]).token_a.len() > 0 && r7[i].token_b.len() > 0);
        assert(forall|i: int| 0 <= i < r8.len() ==> (#[trigger] r8[i]).token_a.len() > 0 && r8[i].token_b.len() > 0);
    }
}

/// Law of the single firing: a checkpoint fires once per distinct token
/// change. Whatever state a tick leaves behind records the token it saw,
/// so a following tick that reads the same token compares the rules
/// against the empty token, and no checkpoint rule matches it.
pub proof fn lemma_checkpoint_fires_once_per_token(
    st2: RunState,
    s: Settings,
    area_id: i32,
    mode: i32,
    level: Seq<char>,
)
    requires
        st2.last_level@ == level,
    ensures
        !spec_checkpoint_fire(
            spec_checkpoint_rules(s),
            area_id,
            mode,
            spec_debounced(level, st2.last_level@),
        ),
{
    lemma_checkpoint_tokens_nonempty(s);
}

pub proof fn lemma_debounce_two_ticks(level1: Seq<char>, st2: RunState, level2: Seq<char>)
    requires
        st2.last_level@ == level1,
    ensures
        level2 == level1 ==> spec_debounced(level2, st2.last_level@) == Seq::<char>::empty(),
        level2 != level1 ==> spec_debounced(level2, st2.last_level@) == level2,
{
}

} // verus!
