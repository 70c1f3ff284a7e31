use celeste_splitter::memory::{MemSnapshot, ReadError};

#[test]
fn read_bytes_round_trip() {
    let mut mem = MemSnapshot::new();
    mem.record_block(0x1000, &[1, 2, 3, 4, 5]);
    assert_eq!(mem.read_bytes(0x1000, 5).unwrap(), vec![1, 2, 3, 4, 5]);
    assert_eq!(mem.read_bytes(0x1002, 2).unwrap(), vec![3, 4]);
    assert_eq!(mem.read_bytes(0x1000, 0).unwrap(), Vec::<u8>::new());
}

#[test]
fn read_reports_missing_range() {
    let mem = MemSnapshot::new();
    assert_eq!(
        mem.read_bytes(0x2000, 4),
        Err(ReadError::NotCaptured { addr: 0x2000, len: 4 })
    );
}

#[test]
fn read_partially_missing_range() {
    let mut mem = MemSnapshot::new();
    mem.record_block(0x1000, &[9, 9]);
    assert_eq!(
        mem.read_bytes(0x0fff, 4),
        Err(ReadError::NotCaptured { addr: 0x0fff, len: 4 })
    );
}

#[test]
fn read_unreadable_range() {
    let mut mem = MemSnapshot::new();
    mem.record_unreadable(0x3000, 8);
    assert_eq!(mem.read_bytes(0x3000, 8), Err(ReadError::Unreadable));
    assert_eq!(mem.read_u64(0x3000), Err(ReadError::Unreadable));
}

#[test]
fn read_past_end_of_space_is_unreadable() {
    let mem = MemSnapshot::new();
    assert_eq!(mem.read_bytes(u64::MAX, 2), Err(ReadError::Unreadable));
    assert_eq!(mem.read_u64(u64::MAX - 3), Err(ReadError::Unreadable));
}

#[test]
fn little_endian_decoding() {
    let mut mem = MemSnapshot::new();
    mem.record_block(0x100, &0x1122_3344u32.to_le_bytes());
    mem.record_block(0x200, &0x0102_0304_0506_0708u64.to_le_bytes());
    mem.record_block(0x300, &(-5i32).to_le_bytes());
    mem.record_block(0x400, &(-123_456_789_000i64).to_le_bytes());
    mem.record_block(0x500, &0xBEEFu16.to_le_bytes());
    assert_eq!(mem.read_u32(0x100).unwrap(), 0x1122_3344);
    assert_eq!(mem.read_u64(0x200).unwrap(), 0x0102_0304_0506_0708);
    assert_eq!(mem.read_i32(0x300).unwrap(), -5);
    assert_eq!(mem.read_i64(0x400).unwrap(), -123_456_789_000);
    assert_eq!(mem.read_u16(0x500).unwrap(), 0xBEEF);
    assert_eq!(mem.read_u8(0x100).unwrap(), 0x44);
}

#[test]
fn record_block_overwrites() {
    let mut mem = MemSnapshot::new();
    mem.record_unreadable(0x100, 4);
    mem.record_block(0x100, &[7, 8, 9, 10]);
    assert_eq!(mem.read_bytes(0x100, 4).unwrap(), vec![7, 8, 9, 10]);
}

#[test]
fn c_string_cut_at_nul() {
    let mut mem = MemSnapshot::new();
    let mut buf = [0u8; 16];
    buf[..5].copy_from_slice(b"hello");
    mem.record_block(0x100, &buf);
    assert_eq!(mem.read_c_string(0x100, 16).unwrap(), b"hello".to_vec());
}

#[test]
fn c_string_without_nul_is_whole_buffer() {
    let mut mem = MemSnapshot::new();
    mem.record_block(0x100, b"abcd");
    assert_eq!(mem.read_c_string(0x100, 4).unwrap(), b"abcd".to_vec());
}

#[test]
fn c_string_needs_whole_buffer() {
    // The name is read out of a fixed-size buffer: a short capture is a
    // missing range even when a NUL sits early.
    let mut mem = MemSnapshot::new();
    mem.record_block(0x100, &[b'h', b'i', 0]);
    assert_eq!(
        mem.read_c_string(0x100, 8),
        Err(ReadError::NotCaptured { addr: 0x100, len: 8 })
    );
}

#[test]
fn offset_readers_check_the_space() {
    let mut mem = MemSnapshot::new();
    mem.record_block(0x100, &42u64.to_le_bytes());
    assert_eq!(mem.read_u64_at(0x80, 0x80).unwrap(), 42);
    assert_eq!(mem.read_u8_at(u64::MAX, 1), Err(ReadError::Unreadable));
}
