use celeste_splitter::memory::{MemSnapshot, ReadError};
use celeste_splitter::metadata::{
    class_field_offset, class_static_fields, field, instance_class, locate_autosplitter_info,
    lookup_class, static_field, ResolveError,
};

fn put_u64(mem: &mut MemSnapshot, addr: u64, v: u64) {
    mem.record_block(addr, &v.to_le_bytes());
}

fn put_u32(mem: &mut MemSnapshot, addr: u64, v: u32) {
    mem.record_block(addr, &v.to_le_bytes());
}

fn put_i32(mem: &mut MemSnapshot, addr: u64, v: i32) {
    mem.record_block(addr, &v.to_le_bytes());
}

fn put_u8(mem: &mut MemSnapshot, addr: u64, v: u8) {
    mem.record_block(addr, &[v]);
}

/// Record a NUL-terminated name in a fixed-size buffer.
fn put_name(mem: &mut MemSnapshot, addr: u64, name: &str, buf_len: usize) {
    let mut buf = vec![0u8; buf_len];
    buf[..name.len()].copy_from_slice(name.as_bytes());
    mem.record_block(addr, &buf);
}

/// Record a class record: kind byte, name, and bucket link.
fn put_class(mem: &mut MemSnapshot, klass: u64, kind: u8, name_buf: u64, name: &str, next: u64) {
    put_u8(mem, klass + 0x24, kind);
    put_u64(mem, klass + 0x40, name_buf);
    put_name(mem, name_buf, name, 128);
    put_u64(mem, klass + 0xf8, next);
}

/// Record a field-descriptor table of (name, packed offset word) records.
fn put_fields(mem: &mut MemSnapshot, klass: u64, table: u64, names_at: u64, fields: &[(&str, u64)]) {
    put_i32(mem, klass + 0xf0, fields.len() as i32);
    put_u64(mem, klass + 0x90, table);
    for (i, (name, word)) in fields.iter().enumerate() {
        let rec = table + 32 * i as u64;
        let name_buf = names_at + 0x100 * i as u64;
        put_u64(mem, rec + 8, name_buf);
        put_name(mem, name_buf, name, 256);
        put_u64(mem, rec + 24, *word);
    }
}

/// A two-bucket class cache whose second bucket chains two classes.
fn cache_image() -> MemSnapshot {
    let mut mem = MemSnapshot::new();
    put_u32(&mut mem, 0x100 + 0x20, 0x200);
    put_u32(&mut mem, 0x100 + 0x18, 2);
    put_u64(&mut mem, 0x200, 0);
    put_u64(&mut mem, 0x208, 0x1000);
    put_class(&mut mem, 0x1000, 1, 0x1100, "Monocle", 0x2000);
    put_class(&mut mem, 0x2000, 1, 0x2100, "Celeste", 0);
    mem
}

#[test]
fn lookup_walks_buckets_and_links() {
    let mem = cache_image();
    assert_eq!(lookup_class(&mem, 0x100, "Celeste"), Ok(0x2000));
    assert_eq!(lookup_class(&mem, 0x100, "Monocle"), Ok(0x1000));
}

#[test]
fn lookup_not_found_after_whole_table() {
    let mem = cache_image();
    assert_eq!(lookup_class(&mem, 0x100, "Nothing"), Err(ResolveError::NotFound));
}

#[test]
fn lookup_is_idempotent() {
    // For a fixed captured table the lookup is deterministic and does
    // not depend on how often it was asked before.
    let mem = cache_image();
    let first = lookup_class(&mem, 0x100, "Celeste");
    let again = lookup_class(&mem, 0x100, "Celeste");
    let other = lookup_class(&mem, 0x100, "Monocle");
    let third = lookup_class(&mem, 0x100, "Celeste");
    assert_eq!(first, again);
    assert_eq!(first, third);
    assert_eq!(other, Ok(0x1000));
}

#[test]
fn lookup_read_failure_is_not_not_found() {
    // An unreadable link is reported as a read failure, distinct from
    // NotFound.
    let mut mem = cache_image();
    mem.record_unreadable(0x2000 + 0x40, 8);
    assert_eq!(
        lookup_class(&mem, 0x100, "Nothing"),
        Err(ResolveError::Read(ReadError::Unreadable))
    );
}

#[test]
fn lookup_cycle_is_malformed() {
    // A bucket whose chain loops back on itself ends in a structural
    // error after the step bound, never an endless walk.
    let mut mem = MemSnapshot::new();
    put_u32(&mut mem, 0x100 + 0x20, 0x200);
    put_u32(&mut mem, 0x100 + 0x18, 1);
    put_u64(&mut mem, 0x200, 0x1000);
    put_class(&mut mem, 0x1000, 1, 0x1100, "Looper", 0x1000);
    assert_eq!(lookup_class(&mem, 0x100, "Absent"), Err(ResolveError::Malformed));
}

#[test]
fn field_offset_scans_records_and_masks() {
    let mut mem = MemSnapshot::new();
    // Kind byte carries unrelated high bits; only the low three count.
    put_u8(&mut mem, 0x1000 + 0x24, 0x29);
    put_fields(
        &mut mem,
        0x1000,
        0x5000,
        0x6000,
        &[("health", 0xDEAD_0000_0000_0010), ("score", 0x20)],
    );
    assert_eq!(class_field_offset(&mem, 0x1000, "health"), Ok(0x10));
    assert_eq!(class_field_offset(&mem, 0x1000, "score"), Ok(0x20));
    assert_eq!(
        class_field_offset(&mem, 0x1000, "mana"),
        Err(ResolveError::NotFound)
    );
}

#[test]
fn field_offset_unknown_kind_is_malformed() {
    let mut mem = MemSnapshot::new();
    put_u8(&mut mem, 0x1000 + 0x24, 5);
    assert_eq!(
        class_field_offset(&mem, 0x1000, "health"),
        Err(ResolveError::Malformed)
    );
}

#[test]
fn field_offset_negative_count_is_malformed() {
    let mut mem = MemSnapshot::new();
    put_u8(&mut mem, 0x1000 + 0x24, 1);
    put_i32(&mut mem, 0x1000 + 0xf0, -1);
    assert_eq!(
        class_field_offset(&mem, 0x1000, "health"),
        Err(ResolveError::Malformed)
    );
}

#[test]
fn field_offset_follows_generic_redirect() {
    // A generic instantiation resolves exactly as its generic
    // definition does.
    let mut mem = MemSnapshot::new();
    put_u8(&mut mem, 0x3000 + 0x24, 0x0b);  // low bits 3: generic instantiation
    put_u64(&mut mem, 0x3000 + 0xe0, 0x3800);
    put_u64(&mut mem, 0x3800, 0x1000);
    put_u8(&mut mem, 0x1000 + 0x24, 2);
    put_fields(&mut mem, 0x1000, 0x5000, 0x6000, &[("health", 0x10)]);
    assert_eq!(class_field_offset(&mem, 0x3000, "health"), Ok(0x10));
    assert_eq!(
        class_field_offset(&mem, 0x3000, "health"),
        class_field_offset(&mem, 0x1000, "health")
    );
}

#[test]
fn endless_redirection_is_malformed() {
    // A generic instantiation that redirects to itself hits the cap.
    let mut mem = MemSnapshot::new();
    put_u8(&mut mem, 0x3000 + 0x24, 3);
    put_u64(&mut mem, 0x3000 + 0xe0, 0x3800);
    put_u64(&mut mem, 0x3800, 0x3000);
    assert_eq!(
        class_field_offset(&mem, 0x3000, "health"),
        Err(ResolveError::Malformed)
    );
}

#[test]
fn static_fields_use_per_class_vtable_length() {
    let mut mem = MemSnapshot::new();
    put_u64(&mut mem, 0x1000 + 0xc8, 0x6000);
    put_u64(&mut mem, 0x6000 + 8, 0x7000);
    put_u32(&mut mem, 0x1000 + 0x54, 3);
    put_u64(&mut mem, 0x7000 + 64 + 3 * 8, 0x8000);
    assert_eq!(class_static_fields(&mem, 0x1000), Ok(0x8000));

    // A different vtable length lands on a different slot.
    let mut mem2 = MemSnapshot::new();
    put_u64(&mut mem2, 0x1000 + 0xc8, 0x6000);
    put_u64(&mut mem2, 0x6000 + 8, 0x7000);
    put_u32(&mut mem2, 0x1000 + 0x54, 5);
    put_u64(&mut mem2, 0x7000 + 64 + 5 * 8, 0x9000);
    assert_eq!(class_static_fields(&mem2, 0x1000), Ok(0x9000));
}

#[test]
fn instance_class_clears_the_tag_bit() {
    let mut mem = MemSnapshot::new();
    put_u64(&mut mem, 0x9000, 0xA001);
    put_u64(&mut mem, 0xA000, 0xB000);
    assert_eq!(instance_class(&mem, 0x9000), Ok(0xB000));
}

#[test]
fn field_reads_through_instance_class() {
    let mut mem = MemSnapshot::new();
    put_u64(&mut mem, 0x9000, 0xA001);
    put_u64(&mut mem, 0xA000, 0x1000);
    put_u8(&mut mem, 0x1000 + 0x24, 1);
    put_fields(&mut mem, 0x1000, 0x5000, 0x6000, &[("health", 0x10)]);
    put_u64(&mut mem, 0x9000 + 0x10, 777);
    assert_eq!(field(&mem, 0x9000, "health"), Ok(777));
}

#[test]
fn static_field_reads_through_slot() {
    let mut mem = MemSnapshot::new();
    put_u8(&mut mem, 0x1000 + 0x24, 1);
    put_fields(&mut mem, 0x1000, 0x5000, 0x6000, &[("count", 0x08)]);
    put_u64(&mut mem, 0x1000 + 0xc8, 0x6800);
    put_u64(&mut mem, 0x6800 + 8, 0x7000);
    put_u32(&mut mem, 0x1000 + 0x54, 2);
    put_u64(&mut mem, 0x7000 + 64 + 2 * 8, 0x8000);
    put_u64(&mut mem, 0x8000 + 0x08, 4242);
    assert_eq!(static_field(&mem, 0x1000, "count"), Ok(4242));
}

#[test]
fn locate_walks_the_whole_runtime() {
    let mut mem = MemSnapshot::new();
    // Domain list and the game's domain.
    put_u64(&mut mem, 0xA17698, 0x4000);
    put_u64(&mut mem, 0x4000, 0x4100);
    put_u64(&mut mem, 0x4008, 0);
    put_u64(&mut mem, 0x4100 + 0xd8, 0x4200);
    put_name(&mut mem, 0x4200, "Celeste.exe", 128);
    // Assembly, image, class cache.
    put_u64(&mut mem, 0x4100 + 0xd0, 0x4300);
    put_u64(&mut mem, 0x4300 + 0x60, 0x4400);
    let cache: u64 = 0x4400 + 1216;
    put_u32(&mut mem, cache + 0x20, 0x5000);
    put_u32(&mut mem, cache + 0x18, 1);
    put_u64(&mut mem, 0x5000, 0x10000);
    // The game's main class, with one instance field table and statics.
    put_class(&mut mem, 0x10000, 1, 0x10100, "Celeste", 0);
    put_fields(&mut mem, 0x10000, 0x11000, 0x11800, &[("Instance", 0x20)]);
    put_u64(&mut mem, 0x10000 + 0xc8, 0x12000);
    put_u64(&mut mem, 0x12000 + 8, 0x13000);
    put_u32(&mut mem, 0x10000 + 0x54, 2);
    put_u64(&mut mem, 0x13000 + 64 + 2 * 8, 0x14000);
    put_u64(&mut mem, 0x14000 + 0x20, 0x15000);
    // The singleton object and its class.
    put_u64(&mut mem, 0x15000, 0x16001);
    put_u64(&mut mem, 0x16000, 0x17000);
    put_u8(&mut mem, 0x17000 + 0x24, 1);
    put_fields(&mut mem, 0x17000, 0x18000, 0x18800, &[("AutoSplitterInfo", 0x30)]);
    put_u64(&mut mem, 0x15000 + 0x30, 0xABC0);

    assert_eq!(locate_autosplitter_info(&mem), Ok(0xABC0 + 0x10));
}

#[test]
fn locate_rejects_foreign_first_domain() {
    let mut mem = MemSnapshot::new();
    put_u64(&mut mem, 0xA17698, 0x4000);
    put_u64(&mut mem, 0x4000, 0x4100);
    put_u64(&mut mem, 0x4008, 0);
    put_u64(&mut mem, 0x4100 + 0xd8, 0x4200);
    put_name(&mut mem, 0x4200, "Other.exe", 128);
    assert_eq!(locate_autosplitter_info(&mem), Err(ResolveError::NotFound));
}

#[test]
fn locate_reports_missing_bytes() {
    let mem = MemSnapshot::new();
    assert_eq!(
        locate_autosplitter_info(&mem),
        Err(ResolveError::Read(ReadError::NotCaptured { addr: 0xA17698, len: 8 }))
    );
}

#[test]
fn locate_prefers_the_second_domain() {
    // When a second domain exists, the walk goes through it, though the
    // first domain's name is what must spell the game.
    let mut mem = MemSnapshot::new();
    put_u64(&mut mem, 0xA17698, 0x4000);
    put_u64(&mut mem, 0x4000, 0x4100);
    put_u64(&mut mem, 0x4008, 0x4500);
    put_u64(&mut mem, 0x4100 + 0xd8, 0x4200);
    put_name(&mut mem, 0x4200, "Celeste.exe", 128);
    put_u64(&mut mem, 0x4500 + 0xd8, 0x4600);
    put_name(&mut mem, 0x4600, "Celeste.exe (2)", 128);
    // Only the second domain leads anywhere.
    put_u64(&mut mem, 0x4500 + 0xd0, 0x4300);
    put_u64(&mut mem, 0x4300 + 0x60, 0x4400);
    let cache: u64 = 0x4400 + 1216;
    put_u32(&mut mem, cache + 0x20, 0x5000);
    put_u32(&mut mem, cache + 0x18, 1);
    put_u64(&mut mem, 0x5000, 0x10000);
    put_class(&mut mem, 0x10000, 1, 0x10100, "Celeste", 0);
    put_fields(&mut mem, 0x10000, 0x11000, 0x11800, &[("Instance", 0x20)]);
    put_u64(&mut mem, 0x10000 + 0xc8, 0x12000);
    put_u64(&mut mem, 0x12000 + 8, 0x13000);
    put_u32(&mut mem, 0x10000 + 0x54, 2);
    put_u64(&mut mem, 0x13000 + 64 + 2 * 8, 0x14000);
    put_u64(&mut mem, 0x14000 + 0x20, 0x15000);
    put_u64(&mut mem, 0x15000, 0x16001);
    put_u64(&mut mem, 0x16000, 0x17000);
    put_u8(&mut mem, 0x17000 + 0x24, 1);
    put_fields(&mut mem, 0x17000, 0x18000, 0x18800, &[("AutoSplitterInfo", 0x30)]);
    put_u64(&mut mem, 0x15000 + 0x30, 0xABC0);

    assert_eq!(locate_autosplitter_info(&mem), Ok(0xABC0 + 0x10));
}
