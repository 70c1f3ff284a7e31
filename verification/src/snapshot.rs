//! The per-tick view of the game's auto-splitter info struct.
//!
//! Each field sits at a fixed byte offset from the struct's resolved
//! address. Counts and flags whose bytes are unreadable keep neutral
//! defaults; the completion flag and the area id are load-bearing, so a
//! snapshot that cannot read them is invalid and the session must
//! re-attach. The level token is a length-prefixed UTF-16 buffer behind a
//! pointer: absent, oversized or ill-formed, it decodes to the empty
//! string.

use vstd::prelude::*;
use crate::memory::{MemSnapshot, ReadError, sread, sread_i32, sread_i64, sread_u32, sread_u64, sread_u8};

verus! {

/// Offset of the level-name pointer within the auto-splitter info struct.
pub const ASI_LEVEL_OFFSET: u64 = 0x00;

/// Offset of the area id.
pub const ASI_AREA_ID_OFFSET: u64 = 0x08;

/// Offset of the area difficulty mode.
pub const ASI_AREA_MODE_OFFSET: u64 = 0x0c;

/// Offset of the chapter-started flag.
pub const ASI_STARTED_OFFSET: u64 = 0x11;

/// Offset of the chapter-completion flag.
pub const ASI_COMPLETED_OFFSET: u64 = 0x12;

/// Offset of the word the sanity check expects to be zero.
pub const ASI_SANITY_OFFSET: u64 = 0x14;

/// Offset of the chapter-scoped elapsed ticks.
pub const ASI_LEVEL_TIME_OFFSET: u64 = 0x18;

/// Offset of the chapter-scoped strawberry count.
pub const ASI_CHAPTER_STRAWBERRIES_OFFSET: u64 = 0x20;

/// Offset of the chapter-cassette flag.
pub const ASI_CHAPTER_CASSETTE_OFFSET: u64 = 0x24;

/// Offset of the chapter-heart flag.
pub const ASI_CHAPTER_HEART_OFFSET: u64 = 0x25;

/// Offset of the file-scoped elapsed ticks.
pub const ASI_FILE_TIME_OFFSET: u64 = 0x28;

/// Offset of the file-scoped strawberry count.
pub const ASI_FILE_STRAWBERRIES_OFFSET: u64 = 0x30;

/// Offset of the file-scoped cassette count.
pub const ASI_FILE_CASSETTES_OFFSET: u64 = 0x34;

/// Offset of the file-scoped heart count.
pub const ASI_FILE_HEARTS_OFFSET: u64 = 0x38;

/// Offset of the length word within a level-name buffer.
pub const LEVEL_NAME_LEN_OFFSET: u64 = 0x10;

/// Offset of the UTF-16 units within a level-name buffer.
pub const LEVEL_NAME_UNITS_OFFSET: u64 = 0x14;

/// The most UTF-16 units a level name may claim; a larger length is a
/// transient artefact of object construction and reads as empty.
pub const LEVEL_NAME_MAX_UNITS: u32 = 512;

/// What one tick sees of the game, decoded from the auto-splitter info
/// struct.
pub struct Snapshot {
    /// The current chapter is on its completion screen.
    pub completed: bool,
    /// A chapter attempt is under way.
    pub started: bool,
    /// Id of the current area; negative means menu / no area.
    pub area_id: i32,
    /// Difficulty mode of the current area (A-, B- or C-side id).
    pub area_difficulty: i32,
    /// Token of the current level (room) within the area.
    pub level: String,
    /// File-scoped elapsed time, in 100-nanosecond ticks.
    pub game_ticks: i64,
    /// Chapter-scoped elapsed time, in 100-nanosecond ticks.
    pub level_ticks: i64,
    /// Strawberries collected on the save file.
    pub file_strawberries: i32,
    /// Strawberries collected in the current chapter attempt.
    pub chapter_strawberries: i32,
    /// Cassettes collected on the save file.
    pub file_cassettes: i32,
    /// Heart gems collected on the save file.
    pub file_hearts: i32,
    /// The current chapter's cassette was collected this attempt.
    pub chapter_cassette: bool,
    /// The current chapter's heart gem was collected this attempt.
    pub chapter_heart: bool,
}

/// Why no snapshot could be taken this tick.
#[derive(Copy, Clone, PartialEq, Eq, Structural, Debug)]
pub enum SnapshotError {
    /// The capture lacks this byte range; the host shim should read it
    /// from the process, record it, and take the snapshot again.
    NotCaptured { addr: u64, len: u64 },
    /// The completion flag or the area id could not be read: the whole
    /// snapshot is invalid and the session must re-attach.
    Invalid,
}

/// A one-byte flag, read as false where the byte is unreadable. These
/// secondary flags (started, cassette, heart) are written by the game as
/// zero or one, and only the value one reads as true.
pub open spec fn spec_flag_or_false(m: Map<u64, Option<u8>>, addr: int) -> Result<
    bool,
    SnapshotError,
> {
    match sread_u8(m, addr) {
        Ok(b) => Ok(b == 1),
        Err(ReadError::Unreadable) => Ok(false),
        Err(ReadError::NotCaptured { addr, len }) => Err(SnapshotError::NotCaptured { addr, len }),
    }
}

/// A 32-bit count, read as `dflt` where its bytes are unreadable.
pub open spec fn spec_count_or(m: Map<u64, Option<u8>>, addr: int, dflt: i32) -> Result<
    i32,
    SnapshotError,
> {
    match sread_i32(m, addr) {
        Ok(v) => Ok(v),
        Err(ReadError::Unreadable) => Ok(dflt),
        Err(ReadError::NotCaptured { addr, len }) => Err(SnapshotError::NotCaptured { addr, len }),
    }
}

/// A 64-bit tick count, read as zero where its bytes are unreadable.
pub open spec fn spec_ticks_or_zero(m: Map<u64, Option<u8>>, addr: int) -> Result<
    i64,
    SnapshotError,
> {
    match sread_i64(m, addr) {
        Ok(v) => Ok(v),
        Err(ReadError::Unreadable) => Ok(0),
        Err(ReadError::NotCaptured { addr, len }) => Err(SnapshotError::NotCaptured { addr, len }),
    }
}

/// The completion flag: one byte, nonzero reads as true. Unreadable
/// bytes invalidate the snapshot.
pub open spec fn spec_completed(m: Map<u64, Option<u8>>, base: u64) -> Result<
    bool,
    SnapshotError,
> {
    match sread_u8(m, base + ASI_COMPLETED_OFFSET) {
        Ok(b) => Ok(b != 0),
        Err(ReadError::Unreadable) => Err(SnapshotError::Invalid),
        Err(ReadError::NotCaptured { addr, len }) => Err(SnapshotError::NotCaptured { addr, len }),
    }
}

/// The area id; unreadable bytes invalidate the snapshot.
pub open spec fn spec_area_id(m: Map<u64, Option<u8>>, base: u64) -> Result<i32, SnapshotError> {
    match sread_i32(m, base + ASI_AREA_ID_OFFSET) {
        Ok(v) => Ok(v),
        Err(ReadError::Unreadable) => Err(SnapshotError::Invalid),
        Err(ReadError::NotCaptured { addr, len }) => Err(SnapshotError::NotCaptured { addr, len }),
    }
}

/// The 16-bit units held pairwise little-endian in a byte string.
pub open spec fn units_of(b: Seq<u8>) -> Seq<u16> {
    Seq::new(b.len() / 2, |i: int| (b[2 * i] + 256 * b[2 * i + 1]) as u16)
}

/// What `String::from_utf16` decodes a unit sequence to: the decoded
/// characters, or nothing where the sequence is ill-formed UTF-16.
pub uninterp spec fn utf16_decode(units: Seq<u16>) -> Option<Seq<char>>;

/// Relies on `String::from_utf16`: the decoding of a UTF-16 unit
/// sequence depends on the units alone, and fails exactly on ill-formed
/// input.
#[verifier::external_body]
fn utf16_to_string(units: &Vec<u16>) -> (r: Option<String>)
    ensures
        match r {
            Some(s) => utf16_decode(units@) == Some(s@),
            None => utf16_decode(units@) is None,
        },
{
    String::from_utf16(units.as_slice()).ok()
}

/// Pack a byte string into its pairwise little-endian 16-bit units.
#[verifier::loop_isolation(false)]
fn units_from_bytes(b: &Vec<u8>) -> (r: Vec<u16>)
    ensures
        r@ == units_of(b@),
{
    let n: usize = b.len() / 2;
    let mut out: Vec<u16> = Vec::new();
    let mut i: usize = 0;
    while i < n
        invariant
            n == b@.len() / 2,
            0 <= i <= n,
            out@.len() == i,
            forall|j: int| 0 <= j < i ==> out@[j] == units_of(b@)[j],
        decreases n - i,
    {
        let lo = b[2 * i];
        let hi = b[2 * i + 1];
        out.push((lo as u16) + 256 * (hi as u16));
        i = i + 1;
    }
    proof {
        assert(out@ =~= units_of(b@));
    }
    out
}

/// The characters of the level token this tick: empty for a null
/// pointer, an unreadable buffer, an oversized length, or ill-formed
/// UTF-16.
pub open spec fn spec_level_chars(m: Map<u64, Option<u8>>, base: u64) -> Result<
    Seq<char>,
    SnapshotError,
> {
    match sread_u64(m, base + ASI_LEVEL_OFFSET) {
        Err(ReadError::Unreadable) => Ok(Seq::empty()),
        Err(ReadError::NotCaptured { addr, len }) => Err(SnapshotError::NotCaptured { addr, len }),
        Ok(p) => if p == 0 {
            Ok(Seq::empty())
        } else {
            match sread_u32(m, p + LEVEL_NAME_LEN_OFFSET) {
                Err(ReadError::Unreadable) => Ok(Seq::empty()),
                Err(ReadError::NotCaptured { addr, len }) => Err(
                    SnapshotError::NotCaptured { addr, len },
                ),
                Ok(size) => if size > LEVEL_NAME_MAX_UNITS {
                    Ok(Seq::empty())
                } else {
                    match sread(m, p + LEVEL_NAME_UNITS_OFFSET, (2 * size) as nat) {
                        Err(ReadError::Unreadable) => Ok(Seq::empty()),
                        Err(ReadError::NotCaptured { addr, len }) => Err(
                            SnapshotError::NotCaptured { addr, len },
                        ),
                        Ok(bytes) => match utf16_decode(units_of(bytes)) {
                            None => Ok(Seq::empty()),
                            Some(cs) => Ok(cs),
                        },
                    }
                },
            }
        },
    }
}

/// Read the level token out of the capture and decode it.
fn read_level_name(mem: &MemSnapshot, base: u64) -> (r: Result<String, SnapshotError>)
    ensures
        match r {
            Ok(s) => spec_level_chars(mem@, base) == Ok::<Seq<char>, SnapshotError>(s@),
            Err(e) => spec_level_chars(mem@, base) == Err::<Seq<char>, SnapshotError>(e),
        },
{
    let p: u64 = match mem.read_u64_at(base, ASI_LEVEL_OFFSET) {
        Ok(v) => v,
        Err(ReadError::Unreadable) => {
            return Ok(String::new());
        },
        Err(ReadError::NotCaptured { addr, len }) => {
            return Err(SnapshotError::NotCaptured { addr, len });
        },
    };
    if p == 0 {
        return Ok(String::new());
    }
    let size: u32 = match mem.read_u32_at(p, LEVEL_NAME_LEN_OFFSET) {
        Ok(v) => v,
        Err(ReadError::Unreadable) => {
            return Ok(String::new());
        },
        Err(ReadError::NotCaptured { addr, len }) => {
            return Err(SnapshotError::NotCaptured { addr, len });
        },
    };
    if size > LEVEL_NAME_MAX_UNITS {
        return Ok(String::new());
    }
    if p > u64::MAX - LEVEL_NAME_UNITS_OFFSET {
        return Ok(String::new());
    }
    let bytes = match mem.read_bytes(p + LEVEL_NAME_UNITS_OFFSET, (2 * size) as u64) {
        Ok(v) => v,
        Err(ReadError::Unreadable) => {
            return Ok(String::new());
        },
        Err(ReadError::NotCaptured { addr, len }) => {
            return Err(SnapshotError::NotCaptured { addr, len });
        },
    };
    let units = units_from_bytes(&bytes);
    match utf16_to_string(&units) {
        Some(s) => Ok(s),
        None => Ok(String::new()),
    }
}

/// The first failure a snapshot read hits, in field order, if any.
pub open spec fn spec_snapshot_status(m: Map<u64, Option<u8>>, base: u64) -> Result<
    (),
    SnapshotError,
> {
    match spec_completed(m, base) {
        Err(e) => Err(e),
        Ok(_) => match spec_area_id(m, base) {
            Err(e) => Err(e),
            Ok(_) => match spec_count_or(m, base + ASI_AREA_MODE_OFFSET, -1i32) {
                Err(e) => Err(e),
                Ok(_) => match spec_flag_or_false(m, base + ASI_STARTED_OFFSET) {
                    Err(e) => Err(e),
                    Ok(_) => match spec_level_chars(m, base) {
                        Err(e) => Err(e),
                        Ok(_) => match spec_ticks_or_zero(m, base + ASI_LEVEL_TIME_OFFSET) {
                            Err(e) => Err(e),
                            Ok(_) => match spec_ticks_or_zero(m, base + ASI_FILE_TIME_OFFSET) {
                                Err(e) => Err(e),
                                Ok(_) => match spec_count_or(
                                    m,
                                    base + ASI_CHAPTER_STRAWBERRIES_OFFSET,
                                    0,
                                ) {
                                    Err(e) => Err(e),
                                    Ok(_) => match spec_flag_or_false(
                                        m,
                                        base + ASI_CHAPTER_CASSETTE_OFFSET,
                                    ) {
                                        Err(e) => Err(e),
                                        Ok(_) => match spec_flag_or_false(
                                            m,
                                            base + ASI_CHAPTER_HEART_OFFSET,
                                        ) {
                                            Err(e) => Err(e),
                                            Ok(_) => match spec_count_or(
                                                m,
                                                base + ASI_FILE_STRAWBERRIES_OFFSET,
                                                0,
                                            ) {
                                                Err(e) => Err(e),
                                                Ok(_) => match spec_count_or(
                                                    m,
                                                    base + ASI_FILE_CASSETTES_OFFSET,
                                                    0,
                                                ) {
                                                    Err(e) => Err(e),
                                                    Ok(_) => match spec_count_or(
                                                        m,
                                                        base + ASI_FILE_HEARTS_OFFSET,
                                                        0,
                                                    ) {
                                                        Err(e) => Err(e),
                                                        Ok(_) => Ok(()),
                                                    },
                                                },
                                            },
                                        },
                                    },
                                },
                            },
                        },
                    },
                },
            },
        },
    }
}

/// A one-byte flag out of the capture, false where unreadable.
fn read_flag_or_false(mem: &MemSnapshot, base: u64, off: u64) -> (r: Result<bool, SnapshotError>)
    ensures
        r == spec_flag_or_false(mem@, base + off),
{
    match mem.read_u8_at(base, off) {
        Ok(b) => Ok(b == 1),
        Err(ReadError::Unreadable) => Ok(false),
        Err(ReadError::NotCaptured { addr, len }) => Err(SnapshotError::NotCaptured { addr, len }),
    }
}

/// A 32-bit count out of the capture, `dflt` where unreadable.
fn read_count_or(mem: &MemSnapshot, base: u64, off: u64, dflt: i32) -> (r: Result<
    i32,
    SnapshotError,
>)
    ensures
        r == spec_count_or(mem@, base + off, dflt),
{
    match mem.read_i32_at(base, off) {
        Ok(v) => Ok(v),
        Err(ReadError::Unreadable) => Ok(dflt),
        Err(ReadError::NotCaptured { addr, len }) => Err(SnapshotError::NotCaptured { addr, len }),
    }
}

/// A 64-bit tick count out of the capture, zero where unreadable.
fn read_ticks_or_zero(mem: &MemSnapshot, base: u64, off: u64) -> (r: Result<i64, SnapshotError>)
    ensures
        r == spec_ticks_or_zero(mem@, base + off),
{
    match mem.read_i64_at(base, off) {
        Ok(v) => Ok(v),
        Err(ReadError::Unreadable) => Ok(0),
        Err(ReadError::NotCaptured { addr, len }) => Err(SnapshotError::NotCaptured { addr, len }),
    }
}

/// Take the tick's snapshot of the auto-splitter info struct at `base`.
/// Succeeds exactly when no field read is missing from the capture and
/// the completion flag and area id are readable; each field of the
/// result is then the field the capture shows.
pub fn read_snapshot(mem: &MemSnapshot, base: u64) -> (r: Result<Snapshot, SnapshotError>)
    ensures
        match r {
            Ok(s) => spec_snapshot_status(mem@, base) == Ok::<(), SnapshotError>(())
                && spec_completed(mem@, base) == Ok::<bool, SnapshotError>(s.completed)
                && spec_area_id(mem@, base) == Ok::<i32, SnapshotError>(s.area_id)
                && spec_count_or(mem@, base + ASI_AREA_MODE_OFFSET, -1i32) == Ok::<
                i32,
                SnapshotError,
            >(s.area_difficulty) && spec_flag_or_false(mem@, base + ASI_STARTED_OFFSET) == Ok::<
                bool,
                SnapshotError,
            >(s.started) && spec_level_chars(mem@, base) == Ok::<Seq<char>, SnapshotError>(s.level@)
                && spec_ticks_or_zero(mem@, base + ASI_LEVEL_TIME_OFFSET) == Ok::<
                i64,
                SnapshotError,
            >(s.level_ticks) && spec_ticks_or_zero(mem@, base + ASI_FILE_TIME_OFFSET) == Ok::<
                i64,
                SnapshotError,
            >(s.game_ticks) && spec_count_or(mem@, base + ASI_CHAPTER_STRAWBERRIES_OFFSET, 0)
                == Ok::<i32, SnapshotError>(s.chapter_strawberries) && spec_flag_or_false(
                mem@,
                base + ASI_CHAPTER_CASSETTE_OFFSET,
            ) == Ok::<bool, SnapshotError>(s.chapter_cassette) && spec_flag_or_false(
                mem@,
                base + ASI_CHAPTER_HEART_OFFSET,
            ) == Ok::<bool, SnapshotError>(s.chapter_heart) && spec_count_or(
                mem@,
                base + ASI_FILE_STRAWBERRIES_OFFSET,
                0,
            ) == Ok::<i32, SnapshotError>(s.file_strawberries) && spec_count_or(
                mem@,
                base + ASI_FILE_CASSETTES_OFFSET,
                0,
            ) == Ok::<i32, SnapshotError>(s.file_cassettes) && spec_count_or(
                mem@,
                base + ASI_FILE_HEARTS_OFFSET,
                0,
            ) == Ok::<i32, SnapshotError>(s.file_hearts),
            Err(e) => spec_snapshot_status(mem@, base) == Err::<(), SnapshotError>(e),
        },
{
    let completed = match read_completed(mem, base) {
        Ok(v) => v,
        Err(e) => {
            return Err(e);
        },
    };
    let area_id = match read_area_id(mem, base) {
        Ok(v) => v,
        Err(e) => {
            return Err(e);
        },
    };
    let area_difficulty = match read_count_or(mem, base, ASI_AREA_MODE_OFFSET, -1i32) {
        Ok(v) => v,
        Err(e) => {
            return Err(e);
        },
    };
    let started = match read_flag_or_false(mem, base, ASI_STARTED_OFFSET) {
        Ok(v) => v,
        Err(e) => {
            return Err(e);
        },
    };
    let level = match read_level_name(mem, base) {
        Ok(v) => v,
        Err(e) => {
            return Err(e);
        },
    };
    let level_ticks = match read_ticks_or_zero(mem, base, ASI_LEVEL_TIME_OFFSET) {
        Ok(v) => v,
        Err(e) => {
            return Err(e);
        },
    };
    let game_ticks = match read_ticks_or_zero(mem, base, ASI_FILE_TIME_OFFSET) {
        Ok(v) => v,
        Err(e) => {
            return Err(e);
        },
    };
    let chapter_strawberries = match read_count_or(mem, base, ASI_CHAPTER_STRAWBERRIES_OFFSET, 0) {
        Ok(v) => v,
        Err(e) => {
            return Err(e);
        },
    };
    let chapter_cassette = match read_flag_or_false(mem, base, ASI_CHAPTER_CASSETTE_OFFSET) {
        Ok(v) => v,
        Err(e) => {
            return Err(e);
        },
    };
    let chapter_heart = match read_flag_or_false(mem, base, ASI_CHAPTER_HEART_OFFSET) {
        Ok(v) => v,
        Err(e) => {
            return Err(e);
        },
    };
    let file_strawberries = match read_count_or(mem, base, ASI_FILE_STRAWBERRIES_OFFSET, 0) {
        Ok(v) => v,
        Err(e) => {
            return Err(e);
        },
    };
    let file_cassettes = match read_count_or(mem, base, ASI_FILE_CASSETTES_OFFSET, 0) {
        Ok(v) => v,
        Err(e) => {
            return Err(e);
        },
    };
    let file_hearts = match read_count_or(mem, base, ASI_FILE_HEARTS_OFFSET, 0) {
        Ok(v) => v,
        Err(e) => {
            return Err(e);
        },
    };
    Ok(
        Snapshot {
            completed,
            started,
            area_id,
            area_difficulty,
            level,
            game_ticks,
            level_ticks,
            file_strawberries,
            chapter_strawberries,
            file_cassettes,
            file_hearts,
            chapter_cassette,
            chapter_heart,
        },
    )
}

/// The completion flag out of the capture; unreadable invalidates.
fn read_completed(mem: &MemSnapshot, base: u64) -> (r: Result<bool, SnapshotError>)
    ensures
        r == spec_completed(mem@, base),
{
    match mem.read_u8_at(base, ASI_COMPLETED_OFFSET) {
        Ok(b) => Ok(b != 0),
        Err(ReadError::Unreadable) => Err(SnapshotError::Invalid),
        Err(ReadError::NotCaptured { addr, len }) => Err(SnapshotError::NotCaptured { addr, len }),
    }
}

/// The area id out of the capture; unreadable invalidates.
fn read_area_id(mem: &MemSnapshot, base: u64) -> (r: Result<i32, SnapshotError>)
    ensures
        r == spec_area_id(mem@, base),
{
    match mem.read_i32_at(base, ASI_AREA_ID_OFFSET) {
        Ok(v) => Ok(v),
        Err(ReadError::Unreadable) => Err(SnapshotError::Invalid),
        Err(ReadError::NotCaptured { addr, len }) => Err(SnapshotError::NotCaptured { addr, len }),
    }
}

/// Whether the struct at `base` still looks like the auto-splitter info
/// struct: the word past the flags must read as zero, and the level-name
/// slot must not read as a null 32-bit word. An unreadable first word
/// fails the check; an unreadable second word passes it.
pub open spec fn spec_sanity_check(m: Map<u64, Option<u8>>, base: u64) -> Result<
    bool,
    SnapshotError,
> {
    match sread_u32(m, base + ASI_SANITY_OFFSET) {
        Err(ReadError::Unreadable) => Ok(false),
        Err(ReadError::NotCaptured { addr, len }) => Err(SnapshotError::NotCaptured { addr, len }),
        Ok(v) => if v != 0 {
            Ok(false)
        } else {
            match sread_u32(m, base as int) {
                Err(ReadError::Unreadable) => Ok(true),
                Err(ReadError::NotCaptured { addr, len }) => Err(
                    SnapshotError::NotCaptured { addr, len },
                ),
                Ok(p) => Ok(p != 0),
            }
        },
    }
}

/// Run the per-tick sanity check of a resolved struct address.
pub fn sanity_check(mem: &MemSnapshot, base: u64) -> (r: Result<bool, SnapshotError>)
    ensures
        r == spec_sanity_check(mem@, base),
{
    let v: u32 = match mem.read_u32_at(base, ASI_SANITY_OFFSET) {
        Ok(v) => v,
        Err(ReadError::Unreadable) => {
            return Ok(false);
        },
        Err(ReadError::NotCaptured { addr, len }) => {
            return Err(SnapshotError::NotCaptured { addr, len });
        },
    };
    if v != 0 {
        return Ok(false);
    }
    match mem.read_u32_at(base, 0) {
        Ok(p) => Ok(p != 0),
        Err(ReadError::Unreadable) => Ok(true),
        Err(ReadError::NotCaptured { addr, len }) => Err(SnapshotError::NotCaptured { addr, len }),
    }
}

} // verus!
