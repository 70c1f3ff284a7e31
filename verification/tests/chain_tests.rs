use celeste_splitter::chain::resolve;
use celeste_splitter::memory::{MemSnapshot, ReadError};

#[test]
fn three_step_chain_dereferences_twice() {
    // resolve(base, [a, b, c]) with both reads succeeding returns
    // *(*(base + a) + b) + c.
    let mut mem = MemSnapshot::new();
    let base: u64 = 0x1000;
    mem.record_block(0x1000 + 0x20, &0x2000u64.to_le_bytes());
    mem.record_block(0x2000 + 0x08, &0x3000u64.to_le_bytes());
    let r = resolve(&mem, base, &vec![0x20, 0x08, 0x40]);
    assert_eq!(r.unwrap(), 0x3040);
}

#[test]
fn failing_first_step_fails_the_chain() {
    // If the read behind the first offset fails, the result is that
    // failure, never an address built from the later offsets — even
    // though every later read would succeed.
    let mut mem = MemSnapshot::new();
    mem.record_unreadable(0x1000 + 0x20, 8);
    mem.record_block(0x2000 + 0x08, &0x3000u64.to_le_bytes());
    let r = resolve(&mem, 0x1000, &vec![0x20, 0x08, 0x40]);
    assert_eq!(r, Err(ReadError::Unreadable));
}

#[test]
fn missing_first_step_reports_its_range() {
    let mem = MemSnapshot::new();
    let r = resolve(&mem, 0x1000, &vec![0x20, 0x08, 0x40]);
    assert_eq!(r, Err(ReadError::NotCaptured { addr: 0x1020, len: 8 }));
}

#[test]
fn negative_offsets_step_backwards() {
    let mut mem = MemSnapshot::new();
    mem.record_block(0x0fe0, &0x5000u64.to_le_bytes());
    let r = resolve(&mem, 0x1000, &vec![-0x20, -0x10]);
    assert_eq!(r.unwrap(), 0x4ff0);
}

#[test]
fn last_offset_is_not_dereferenced() {
    // A single offset only adds; no byte of the capture is touched.
    let mem = MemSnapshot::new();
    assert_eq!(resolve(&mem, 0x1000, &vec![0x20]).unwrap(), 0x1020);
}

#[test]
fn empty_chain_is_the_base() {
    let mem = MemSnapshot::new();
    assert_eq!(resolve(&mem, 0x1234, &vec![]).unwrap(), 0x1234);
}

#[test]
fn step_outside_the_space_fails() {
    let mem = MemSnapshot::new();
    assert_eq!(resolve(&mem, 5, &vec![-6]), Err(ReadError::Unreadable));
    assert_eq!(
        resolve(&mem, u64::MAX, &vec![1]),
        Err(ReadError::Unreadable)
    );
}
