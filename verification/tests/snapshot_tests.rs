use celeste_splitter::engine::RunState;
use celeste_splitter::game_types::Settings;
use celeste_splitter::memory::MemSnapshot;
use celeste_splitter::session::{tick, TickOutcome};
use celeste_splitter::snapshot::{read_snapshot, sanity_check, SnapshotError};

const BASE: u64 = 0x5000;
const LEVEL_BUF: u64 = 0x9000;

fn put(mem: &mut MemSnapshot, addr: u64, bytes: &[u8]) {
    mem.record_block(addr, bytes);
}

/// Record a level-name buffer holding the UTF-16 units of `name`.
fn put_level_name(mem: &mut MemSnapshot, buf: u64, name: &str) {
    let units: Vec<u16> = name.encode_utf16().collect();
    put(mem, buf + 0x10, &(units.len() as u32).to_le_bytes());
    let mut bytes = Vec::new();
    for u in &units {
        bytes.extend_from_slice(&u.to_le_bytes());
    }
    mem.record_block(buf + 0x14, &bytes);
}

/// Record a full auto-splitter info struct.
fn put_asi(
    mem: &mut MemSnapshot,
    level: &str,
    area_id: i32,
    mode: i32,
    started: bool,
    completed: bool,
) {
    put(mem, BASE + 0x00, &LEVEL_BUF.to_le_bytes());
    put_level_name(mem, LEVEL_BUF, level);
    put(mem, BASE + 0x08, &area_id.to_le_bytes());
    put(mem, BASE + 0x0c, &mode.to_le_bytes());
    put(mem, BASE + 0x10, &[0]);
    put(mem, BASE + 0x11, &[started as u8]);
    put(mem, BASE + 0x12, &[completed as u8]);
    put(mem, BASE + 0x13, &[0]);
    put(mem, BASE + 0x14, &0u32.to_le_bytes());
    put(mem, BASE + 0x18, &123_450_000i64.to_le_bytes());
    put(mem, BASE + 0x20, &3i32.to_le_bytes());
    put(mem, BASE + 0x24, &[1]);
    put(mem, BASE + 0x25, &[0]);
    put(mem, BASE + 0x28, &700_020_000i64.to_le_bytes());
    put(mem, BASE + 0x30, &25i32.to_le_bytes());
    put(mem, BASE + 0x34, &4i32.to_le_bytes());
    put(mem, BASE + 0x38, &6i32.to_le_bytes());
}

#[test]
fn snapshot_decodes_every_field() {
    let mut mem = MemSnapshot::new();
    put_asi(&mut mem, "b-00", 4, 1, true, true);
    let s = read_snapshot(&mem, BASE).unwrap();
    assert_eq!(s.level, "b-00");
    assert_eq!(s.area_id, 4);
    assert_eq!(s.area_difficulty, 1);
    assert!(s.started);
    assert!(s.completed);
    assert_eq!(s.level_ticks, 123_450_000);
    assert_eq!(s.game_ticks, 700_020_000);
    assert_eq!(s.chapter_strawberries, 3);
    assert!(s.chapter_cassette);
    assert!(!s.chapter_heart);
    assert_eq!(s.file_strawberries, 25);
    assert_eq!(s.file_cassettes, 4);
    assert_eq!(s.file_hearts, 6);
}

#[test]
fn level_name_decodes_beyond_ascii() {
    // The UTF-16 decoding is real: a non-ASCII unit comes back as its
    // character, not as raw bytes.
    let mut mem = MemSnapshot::new();
    put_asi(&mut mem, "caf\u{e9}-00", 1, 0, false, false);
    let s = read_snapshot(&mem, BASE).unwrap();
    assert_eq!(s.level, "caf\u{e9}-00");
    assert_eq!(s.level.chars().count(), 7);
}

#[test]
fn level_name_ill_formed_utf16_reads_empty() {
    // An unpaired surrogate is a decode failure, which reads as the
    // empty token.
    let mut mem = MemSnapshot::new();
    put_asi(&mut mem, "x", 1, 0, false, false);
    put(&mut mem, LEVEL_BUF + 0x10, &1u32.to_le_bytes());
    put(&mut mem, LEVEL_BUF + 0x14, &0xD800u16.to_le_bytes());
    let s = read_snapshot(&mem, BASE).unwrap();
    assert_eq!(s.level, "");
}

#[test]
fn level_name_oversized_length_reads_empty() {
    let mut mem = MemSnapshot::new();
    put_asi(&mut mem, "x", 1, 0, false, false);
    put(&mut mem, LEVEL_BUF + 0x10, &513u32.to_le_bytes());
    let s = read_snapshot(&mem, BASE).unwrap();
    assert_eq!(s.level, "");
}

#[test]
fn level_name_null_pointer_reads_empty() {
    let mut mem = MemSnapshot::new();
    put_asi(&mut mem, "x", 1, 0, false, false);
    put(&mut mem, BASE + 0x00, &0u64.to_le_bytes());
    let s = read_snapshot(&mem, BASE).unwrap();
    assert_eq!(s.level, "");
}

#[test]
fn unreadable_counts_keep_defaults() {
    let mut mem = MemSnapshot::new();
    put_asi(&mut mem, "x", 1, 0, true, false);
    mem.record_unreadable(BASE + 0x30, 4);
    mem.record_unreadable(BASE + 0x0c, 4);
    mem.record_unreadable(BASE + 0x18, 8);
    let s = read_snapshot(&mem, BASE).unwrap();
    assert_eq!(s.file_strawberries, 0);
    assert_eq!(s.area_difficulty, -1);
    assert_eq!(s.level_ticks, 0);
}

#[test]
fn unreadable_completion_flag_invalidates() {
    let mut mem = MemSnapshot::new();
    put_asi(&mut mem, "x", 1, 0, true, false);
    mem.record_unreadable(BASE + 0x12, 1);
    assert!(matches!(read_snapshot(&mem, BASE), Err(SnapshotError::Invalid)));
}

#[test]
fn unreadable_area_id_invalidates() {
    let mut mem = MemSnapshot::new();
    put_asi(&mut mem, "x", 1, 0, true, false);
    mem.record_unreadable(BASE + 0x08, 4);
    assert!(matches!(read_snapshot(&mem, BASE), Err(SnapshotError::Invalid)));
}

#[test]
fn missing_bytes_are_named_exactly() {
    let mem = MemSnapshot::new();
    match read_snapshot(&mem, BASE) {
        Err(e) => assert_eq!(e, SnapshotError::NotCaptured { addr: BASE + 0x12, len: 1 }),
        Ok(_) => panic!("an empty capture cannot yield a snapshot"),
    }
}

#[test]
fn sanity_check_accepts_live_struct() {
    let mut mem = MemSnapshot::new();
    put_asi(&mut mem, "x", 1, 0, true, false);
    assert_eq!(sanity_check(&mem, BASE), Ok(true));
}

#[test]
fn sanity_check_rejects_nonzero_word() {
    let mut mem = MemSnapshot::new();
    put_asi(&mut mem, "x", 1, 0, true, false);
    put(&mut mem, BASE + 0x14, &7u32.to_le_bytes());
    assert_eq!(sanity_check(&mem, BASE), Ok(false));
}

#[test]
fn sanity_check_rejects_null_level_slot() {
    let mut mem = MemSnapshot::new();
    put_asi(&mut mem, "x", 1, 0, true, false);
    put(&mut mem, BASE + 0x00, &0u64.to_le_bytes());
    assert_eq!(sanity_check(&mem, BASE), Ok(false));
}

#[test]
fn sanity_check_tolerates_unreadable_level_slot() {
    let mut mem = MemSnapshot::new();
    put_asi(&mut mem, "x", 1, 0, true, false);
    mem.record_unreadable(BASE + 0x00, 8);
    assert_eq!(sanity_check(&mem, BASE), Ok(true));
    mem.record_unreadable(BASE + 0x14, 4);
    assert_eq!(sanity_check(&mem, BASE), Ok(false));
}

#[test]
fn tick_demand_fetches_until_it_runs() {
    // The host loop in miniature: run the tick, fetch exactly the range
    // the outcome names out of a prepared "process", and run again.
    let mut process = MemSnapshot::new();
    put_asi(&mut process, "04", 1, 1, true, false);

    let mut settings = Settings::default();
    settings.chapter1_checkpoint1 = true;
    let mut state = RunState::new();
    let mut mem = MemSnapshot::new();

    let mut rounds = 0;
    loop {
        match tick(&mem, BASE, &settings, &mut state) {
            TickOutcome::NeedBytes { addr, len } => {
                rounds += 1;
                assert!(rounds < 100, "demand loop did not settle");
                match process.read_bytes(addr, len) {
                    Ok(bytes) => mem.record_block(addr, &bytes),
                    Err(_) => mem.record_unreadable(addr, len),
                }
            }
            TickOutcome::Teardown => panic!("session should stay valid"),
            TickOutcome::Ran { actions, snap } => {
                assert!(actions.split);
                assert_eq!(snap.level, "04");
                assert_eq!(snap.file_strawberries, 25);
                break;
            }
        }
    }
    assert!(rounds > 1);
}

#[test]
fn tick_tears_down_on_failed_sanity() {
    let mut mem = MemSnapshot::new();
    put_asi(&mut mem, "x", 1, 0, true, false);
    put(&mut mem, BASE + 0x14, &1u32.to_le_bytes());
    let settings = Settings::default();
    let mut state = RunState::new();
    assert!(matches!(
        tick(&mem, BASE, &settings, &mut state),
        TickOutcome::Teardown
    ));
}

#[test]
fn tick_tears_down_on_invalid_snapshot() {
    let mut mem = MemSnapshot::new();
    put_asi(&mut mem, "x", 1, 0, true, false);
    mem.record_unreadable(BASE + 0x08, 4);
    let settings = Settings::default();
    let mut state = RunState::new();
    assert!(matches!(
        tick(&mem, BASE, &settings, &mut state),
        TickOutcome::Teardown
    ));
}

#[test]
fn loading_is_always_reported() {
    assert!(celeste_splitter::session::is_loading());
}

#[test]
fn completion_flag_reads_any_nonzero_byte_as_true() {
    // The completion flag is one byte, nonzero = true: a byte of 2 is a
    // completion too.
    let mut mem = MemSnapshot::new();
    put_asi(&mut mem, "x", 7, 0, true, false);
    put(&mut mem, BASE + 0x12, &[2]);
    let s = read_snapshot(&mem, BASE).unwrap();
    assert!(s.completed);

    // The secondary flags are written as zero or one; only one is true.
    put(&mut mem, BASE + 0x11, &[2]);
    let s2 = read_snapshot(&mem, BASE).unwrap();
    assert!(!s2.started);
}
