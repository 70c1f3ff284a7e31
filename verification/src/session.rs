//! One tick of a live session, over the capture.
//!
//! The host shim owns the process handle and the resolved struct
//! address; the library owns every decision. Each tick the shim calls
//! [`tick`]; when the capture lacks bytes, the outcome names the range
//! to fetch, and the shim records it and calls again. The decisions are
//! a pure function of the capture, the settings and the previous state,
//! so the repeated call decides exactly as an unbroken one would have.

use vstd::prelude::*;
use crate::engine::{
    RunState,
    TickActions,
    spec_fresh_run,
    spec_split_decision,
    spec_ticks_to_ms,
};
use crate::game_types::Settings;
use crate::memory::MemSnapshot;
use crate::snapshot::{
    ASI_AREA_MODE_OFFSET,
    ASI_CHAPTER_CASSETTE_OFFSET,
    ASI_CHAPTER_HEART_OFFSET,
    ASI_CHAPTER_STRAWBERRIES_OFFSET,
    ASI_FILE_CASSETTES_OFFSET,
    ASI_FILE_HEARTS_OFFSET,
    ASI_FILE_STRAWBERRIES_OFFSET,
    ASI_FILE_TIME_OFFSET,
    ASI_LEVEL_TIME_OFFSET,
    ASI_STARTED_OFFSET,
    Snapshot,
    SnapshotError,
    read_snapshot,
    sanity_check,
    spec_area_id,
    spec_completed,
    spec_count_or,
    spec_flag_or_false,
    spec_level_chars,
    spec_sanity_check,
    spec_snapshot_status,
    spec_ticks_or_zero,
};

verus! {

/// What one call of [`tick`] asks of the host.
pub enum TickOutcome {
    /// The capture lacks this byte range: read it from the process,
    /// record it (or record it unreadable), and run the tick again.
    NeedBytes { addr: u64, len: u64 },
    /// The session is no longer valid: drop it and re-attach next tick.
    Teardown,
    /// The tick ran. Hand the timer the actions, and the display
    /// variables their values out of the snapshot.
    Ran { actions: TickActions, snap: Snapshot },
}

/// The loading state this splitter reports: always loading, so the host
/// never accumulates wall time of its own and counts only the elapsed
/// time the engine hands it out of the game's clock.
pub fn is_loading() -> (r: bool)
    ensures
        r,
{
    true
}

/// Run one tick against the capture: check the resolved struct still
/// looks right, take the snapshot, and evaluate the split engine.
pub fn tick(mem: &MemSnapshot, base: u64, settings: &Settings, state: &mut RunState) -> (r:
    TickOutcome)
    ensures
        match r {
            TickOutcome::NeedBytes { addr, len } => *final(state) == *old(state) && (
            spec_sanity_check(mem@, base) == Err::<bool, SnapshotError>(
                SnapshotError::NotCaptured { addr, len },
            ) || (spec_sanity_check(mem@, base) == Ok::<bool, SnapshotError>(true)
                && spec_snapshot_status(mem@, base) == Err::<(), SnapshotError>(
                SnapshotError::NotCaptured { addr, len },
            ))),
            TickOutcome::Teardown => *final(state) == *old(state) && (spec_sanity_check(mem@, base)
                == Ok::<bool, SnapshotError>(false) || (spec_sanity_check(mem@, base) == Ok::<
                bool,
                SnapshotError,
            >(true) && spec_snapshot_status(mem@, base) == Err::<(), SnapshotError>(
                SnapshotError::Invalid,
            ))),
            TickOutcome::Ran { actions, snap } => spec_sanity_check(mem@, base) == Ok::<
                bool,
                SnapshotError,
            >(true) && spec_snapshot_status(mem@, base) == Ok::<(), SnapshotError>(())
                && spec_completed(mem@, base) == Ok::<bool, SnapshotError>(snap.completed)
                && spec_area_id(mem@, base) == Ok::<i32, SnapshotError>(snap.area_id)
                && spec_count_or(mem@, base + ASI_AREA_MODE_OFFSET, -1i32) == Ok::<
                i32,
                SnapshotError,
            >(snap.area_difficulty) && spec_flag_or_false(mem@, base + ASI_STARTED_OFFSET) == Ok::<
                bool,
                SnapshotError,
            >(snap.started) && spec_level_chars(mem@, base) == Ok::<Seq<char>, SnapshotError>(
                snap.level@,
            ) && spec_ticks_or_zero(mem@, base + ASI_LEVEL_TIME_OFFSET) == Ok::<
                i64,
                SnapshotError,
            >(snap.level_ticks) && spec_ticks_or_zero(mem@, base + ASI_FILE_TIME_OFFSET) == Ok::<
                i64,
                SnapshotError,
            >(snap.game_ticks) && spec_count_or(mem@, base + ASI_CHAPTER_STRAWBERRIES_OFFSET, 0)
                == Ok::<i32, SnapshotError>(snap.chapter_strawberries) && spec_flag_or_false(
                mem@,
                base + ASI_CHAPTER_CASSETTE_OFFSET,
            ) == Ok::<bool, SnapshotError>(snap.chapter_cassette) && spec_flag_or_false(
                mem@,
                base + ASI_CHAPTER_HEART_OFFSET,
            ) == Ok::<bool, SnapshotError>(snap.chapter_heart) && spec_count_or(
                mem@,
                base + ASI_FILE_STRAWBERRIES_OFFSET,
                0,
            ) == Ok::<i32, SnapshotError>(snap.file_strawberries) && spec_count_or(
                mem@,
                base + ASI_FILE_CASSETTES_OFFSET,
                0,
            ) == Ok::<i32, SnapshotError>(snap.file_cassettes) && spec_count_or(
                mem@,
                base + ASI_FILE_HEARTS_OFFSET,
                0,
            ) == Ok::<i32, SnapshotError>(snap.file_hearts) && ({
                let ticks = if settings.level_time {
                    snap.level_ticks
                } else {
                    snap.game_ticks
                };
                let ms = spec_ticks_to_ms(ticks as int);
                let fresh = spec_fresh_run(ms, snap.area_id, snap.level@);
                let d = spec_split_decision(
                    *old(state),
                    *settings,
                    snap.completed,
                    snap.area_id,
                    snap.area_difficulty,
                    snap.level@,
                );
                &&& actions.game_time_ms as int == ms
                &&& actions.new_run == (fresh && !old(state).reset_level)
                &&& actions.split == d.0
                &&& final(state).last_level@ == snap.level@
                &&& final(state).last_completed == snap.completed
                &&& final(state).exiting_chapter == (if d.0 {
                    false
                } else {
                    d.1
                })
                &&& final(state).reset_level == fresh
            }),
        },
{
    let sane: bool = match sanity_check(mem, base) {
        Ok(v) => v,
        Err(SnapshotError::NotCaptured { addr, len }) => {
            return TickOutcome::NeedBytes { addr, len };
        },
        Err(SnapshotError::Invalid) => {
            return TickOutcome::Teardown;
        },
    };
    if !sane {
        return TickOutcome::Teardown;
    }
    let snap = match read_snapshot(mem, base) {
        Ok(s) => s,
        Err(SnapshotError::NotCaptured { addr, len }) => {
            return TickOutcome::NeedBytes { addr, len };
        },
        Err(SnapshotError::Invalid) => {
            return TickOutcome::Teardown;
        },
    };
    let actions = state.update(settings, &snap);
    TickOutcome::Ran { actions, snap }
}

} // verus!
