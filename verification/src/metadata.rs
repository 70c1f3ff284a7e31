//! The metadata resolver: walking the managed runtime's own type records.
//!
//! Starting from nothing but raw captured bytes, these functions find a
//! named class in the runtime's class cache (a hash table of singly
//! linked buckets), resolve a field's byte offset out of the class's
//! field-descriptor table (following one generic-instantiation
//! indirection), locate the static-field storage behind the class's
//! vtable, and finally locate the game's auto-splitter info struct.
//!
//! Every traversal is bounded: a cycle in a bucket's chain or a run of
//! generic redirections past the cap is a structural error, never a hang.

use vstd::prelude::*;
use vstd::string::StrSliceExecFns;
use crate::memory::{
    MemSnapshot,
    ReadError,
    sread_cstr,
    sread_i32,
    sread_u32,
    sread_u64,
    sread_u8,
};

verus! {

/// Offset of the kind byte within a class record.
pub const CLASS_KIND_OFFSET: u64 = 0x24;

/// Offset of the name pointer within a class record.
pub const CLASS_NAME_OFFSET: u64 = 0x40;

/// Offset of the next-in-bucket link within a class record.
pub const CLASS_NEXT_OFFSET: u64 = 0xf8;

/// Offset of the generic-definition indirection within a class record.
pub const CLASS_REDIRECT_OFFSET: u64 = 0xe0;

/// Offset of the field count within a class record.
pub const CLASS_FIELD_COUNT_OFFSET: u64 = 0xf0;

/// Offset of the field-table pointer within a class record.
pub const CLASS_FIELD_TABLE_OFFSET: u64 = 0x90;

/// Offset of the runtime-info pointer within a class record.
pub const CLASS_RUNTIME_INFO_OFFSET: u64 = 0xc8;

/// Offset of the vtable length within a class record.
pub const CLASS_VTABLE_SIZE_OFFSET: u64 = 0x54;

/// Offset of the vtable pointer within a runtime-info record.
pub const RUNTIME_INFO_VTABLE_OFFSET: u64 = 8;

/// Bytes of vtable header before the slots begin.
pub const VTABLE_HEADER_SIZE: u64 = 64;

/// Offset of the bucket array pointer within a class cache.
pub const CACHE_TABLE_OFFSET: u64 = 0x20;

/// Offset of the bucket count within a class cache.
pub const CACHE_SIZE_OFFSET: u64 = 0x18;

/// Size of the buffer a class name is read out of.
pub const CLASS_NAME_MAX: u64 = 128;

/// Size of the buffer a field name is read out of.
pub const FIELD_NAME_MAX: u64 = 256;

/// Size of one field-descriptor record: four machine words.
pub const FIELD_RECORD_SIZE: u64 = 32;

/// The most generic-instantiation redirections the resolver follows; one
/// is the only legitimate case.
pub const REDIRECT_CAP: u32 = 4;

/// The most links the resolver follows within one bucket: a generous
/// bound that turns a corrupted, cyclic chain into an error.
pub const BUCKET_STEP_BOUND: u32 = 4096;

/// Why a metadata resolution produced no value.
#[derive(Copy, Clone, PartialEq, Eq, Structural, Debug)]
pub enum ResolveError {
    /// The requested name is nowhere in the table the runtime exposes.
    /// Retrying next tick may succeed once the runtime has loaded more.
    NotFound,
    /// The metadata does not have the expected shape: an unknown class
    /// kind, too many generic redirections, a negative field count, or a
    /// chain past the cycle bound. The whole session must be discarded.
    Malformed,
    /// A read out of the capture failed or is still missing.
    Read(ReadError),
}

/// Whether a byte string spells exactly the characters of `s` (each byte
/// read as the character of its code).
pub open spec fn bytes_match(b: Seq<u8>, s: Seq<char>) -> bool {
    b.len() == s.len() && forall|i: int| 0 <= i < b.len() ==> (#[trigger] b[i]) as char == s[i]
}

/// Whether a byte string spells exactly the characters of `s`.
#[verifier::loop_isolation(false)]
pub fn bytes_eq_str(b: &Vec<u8>, s: &str) -> (r: bool)
    ensures
        r == bytes_match(b@, s@),
{
    let n: usize = b.len();
    if n != s.unicode_len() {
        return false;
    }
    let mut i: usize = 0;
    while i < n
        invariant
            n == b@.len(),
            n == s@.len(),
            0 <= i <= n,
            forall|j: int| 0 <= j < i ==> (#[trigger] b@[j]) as char == s@[j],
        decreases n - i,
    {
        if (b[i] as char) != s.get_char(i) {
            return false;
        }
        i = i + 1;
    }
    true
}

/// The kind tag of a class record: the low three bits of its kind byte.
pub open spec fn spec_class_kind(m: Map<u64, Option<u8>>, klass: u64) -> Result<u8, ReadError> {
    match sread_u8(m, klass + CLASS_KIND_OFFSET) {
        Ok(b) => Ok(b & 7),
        Err(e) => Err(e),
    }
}

/// The class a bucket's chain holds under the requested name, walking at
/// most `steps` links: the chain ends at a null link with `NotFound`, and
/// a chain longer than `steps` (a cycle) is a structural error.
pub open spec fn spec_walk_bucket(
    m: Map<u64, Option<u8>>,
    klass: u64,
    name: Seq<char>,
    steps: nat,
) -> Result<u64, ResolveError>
    decreases steps,
{
    if klass == 0 {
        Err(ResolveError::NotFound)
    } else if steps == 0 {
        Err(ResolveError::Malformed)
    } else {
        match sread_u64(m, klass + CLASS_NAME_OFFSET) {
            Err(e) => Err(ResolveError::Read(e)),
            Ok(name_ptr) => match sread_cstr(m, name_ptr as int, CLASS_NAME_MAX as nat) {
                Err(e) => Err(ResolveError::Read(e)),
                Ok(cname) => if bytes_match(cname, name) {
                    Ok(klass)
                } else {
                    match sread_u64(m, klass + CLASS_NEXT_OFFSET) {
                        Err(e) => Err(ResolveError::Read(e)),
                        Ok(next) => spec_walk_bucket(m, next, name, (steps - 1) as nat),
                    }
                },
            },
        }
    }
}

/// The first class the table holds under the requested name, reading
/// buckets in increasing index order from `bucket` on.
pub open spec fn spec_lookup_buckets(
    m: Map<u64, Option<u8>>,
    table: u64,
    name: Seq<char>,
    bucket: nat,
    size: nat,
) -> Result<u64, ResolveError>
    decreases size - bucket,
{
    if bucket >= size {
        Err(ResolveError::NotFound)
    } else {
        match sread_u64(m, table + 8 * bucket) {
            Err(e) => Err(ResolveError::Read(e)),
            Ok(head) => match spec_walk_bucket(m, head, name, BUCKET_STEP_BOUND as nat) {
                Err(ResolveError::NotFound) => spec_lookup_buckets(
                    m,
                    table,
                    name,
                    bucket + 1,
                    size,
                ),
                r => r,
            },
        }
    }
}

/// The class the cache holds under the requested name: every bucket in
/// increasing index order, within a bucket in link order, so the result
/// is the same however often it is asked of one capture. `NotFound` comes
/// only once the whole table is exhausted.
pub open spec fn spec_lookup_class(
    m: Map<u64, Option<u8>>,
    class_cache: int,
    name: Seq<char>,
) -> Result<u64, ResolveError> {
    match sread_u32(m, class_cache + CACHE_TABLE_OFFSET) {
        Err(e) => Err(ResolveError::Read(e)),
        Ok(table) => match sread_u32(m, class_cache + CACHE_SIZE_OFFSET) {
            Err(e) => Err(ResolveError::Read(e)),
            Ok(size) => spec_lookup_buckets(m, table as u64, name, 0, size as nat),
        },
    }
}

/// Find a class by name in a class cache. Deterministic for a fixed
/// capture: the result is exactly [`spec_lookup_class`] of the capture.
#[verifier::loop_isolation(false)]
pub fn lookup_class(mem: &MemSnapshot, class_cache: u64, name: &str) -> (r: Result<
    u64,
    ResolveError,
>)
    ensures
        r == spec_lookup_class(mem@, class_cache as int, name@),
{
    let table: u32 = match mem.read_u32_at(class_cache, CACHE_TABLE_OFFSET) {
        Ok(v) => v,
        Err(e) => {
            return Err(ResolveError::Read(e));
        },
    };
    let size: u32 = match mem.read_u32_at(class_cache, CACHE_SIZE_OFFSET) {
        Ok(v) => v,
        Err(e) => {
            return Err(ResolveError::Read(e));
        },
    };
    let ghost whole = spec_lookup_buckets(mem@, table as u64, name@, 0, size as nat);
    let mut bucket: u32 = 0;
    while bucket < size
        invariant
            0 <= bucket <= size,
            whole == spec_lookup_buckets(mem@, table as u64, name@, bucket as nat, size as nat),
        decreases size - bucket,
    {
        let head: u64 = match mem.read_u64_at(table as u64, 8 * (bucket as u64)) {
            Ok(v) => v,
            Err(e) => {
                return Err(ResolveError::Read(e));
            },
        };
        let ghost bucket_result = spec_walk_bucket(mem@, head, name@, BUCKET_STEP_BOUND as nat);
        let mut klass: u64 = head;
        let mut steps: u32 = BUCKET_STEP_BOUND;
        while klass != 0 && steps != 0
            invariant
                0 <= steps <= BUCKET_STEP_BOUND,
                bucket_result == spec_walk_bucket(mem@, klass, name@, steps as nat),
            decreases steps,
        {
            let name_ptr: u64 = match mem.read_u64_at(klass, CLASS_NAME_OFFSET) {
                Ok(v) => v,
                Err(e) => {
                    return Err(ResolveError::Read(e));
                },
            };
            let cname = match mem.read_c_string_at(name_ptr, 0, CLASS_NAME_MAX) {
                Ok(v) => v,
                Err(e) => {
                    return Err(ResolveError::Read(e));
                },
            };
            if bytes_eq_str(&cname, name) {
                return Ok(klass);
            }
            klass = match mem.read_u64_at(klass, CLASS_NEXT_OFFSET) {
                Ok(v) => v,
                Err(e) => {
                    return Err(ResolveError::Read(e));
                },
            };
            steps = steps - 1;
        }
        if klass != 0 {
            return Err(ResolveError::Malformed);
        }
        bucket = bucket + 1;
    }
    Err(ResolveError::NotFound)
}

/// The byte offset the field-descriptor table gives the named field,
/// scanning records linearly from `idx` on: the low half of the fourth
/// word of the first record whose name matches.
pub open spec fn spec_scan_fields(
    m: Map<u64, Option<u8>>,
    fields_ptr: u64,
    name: Seq<char>,
    idx: nat,
    count: nat,
) -> Result<u64, ResolveError>
    decreases count - idx,
{
    if idx >= count {
        Err(ResolveError::NotFound)
    } else {
        let rec = fields_ptr + idx * FIELD_RECORD_SIZE;
        match sread_u64(m, rec + 8) {
            Err(e) => Err(ResolveError::Read(e)),
            Ok(name_ptr) => match sread_cstr(m, name_ptr as int, FIELD_NAME_MAX as nat) {
                Err(e) => Err(ResolveError::Read(e)),
                Ok(fname) => if bytes_match(fname, name) {
                    match sread_u64(m, rec + 24) {
                        Err(e) => Err(ResolveError::Read(e)),
                        Ok(w) => Ok(w & 0xffff_ffff),
                    }
                } else {
                    spec_scan_fields(m, fields_ptr, name, idx + 1, count)
                },
            },
        }
    }
}

/// The byte offset of the named field within instances of the class,
/// with `fuel` generic-instantiation redirections left: a generic
/// instantiation redirects once to its generic definition; a kind
/// outside plain, value-type and generic-instantiation, a negative field
/// count, or a redirection past the cap is a structural error.
pub open spec fn spec_field_offset_with(
    m: Map<u64, Option<u8>>,
    klass: u64,
    name: Seq<char>,
    fuel: nat,
) -> Result<u64, ResolveError>
    decreases fuel,
{
    match spec_class_kind(m, klass) {
        Err(e) => Err(ResolveError::Read(e)),
        Ok(kind) => if kind == 3 {
            if fuel == 0 {
                Err(ResolveError::Malformed)
            } else {
                match sread_u64(m, klass + CLASS_REDIRECT_OFFSET) {
                    Err(e) => Err(ResolveError::Read(e)),
                    Ok(p1) => match sread_u64(m, p1 as int) {
                        Err(e) => Err(ResolveError::Read(e)),
                        Ok(def) => spec_field_offset_with(m, def, name, (fuel - 1) as nat),
                    },
                }
            }
        } else if kind == 1 || kind == 2 {
            match sread_i32(m, klass + CLASS_FIELD_COUNT_OFFSET) {
                Err(e) => Err(ResolveError::Read(e)),
                Ok(count) => if count < 0 {
                    Err(ResolveError::Malformed)
                } else {
                    match sread_u64(m, klass + CLASS_FIELD_TABLE_OFFSET) {
                        Err(e) => Err(ResolveError::Read(e)),
                        Ok(fp) => spec_scan_fields(m, fp, name, 0, count as nat),
                    }
                },
            }
        } else {
            Err(ResolveError::Malformed)
        },
    }
}

/// The byte offset of the named field within instances of the class.
pub open spec fn spec_field_offset(
    m: Map<u64, Option<u8>>,
    klass: u64,
    name: Seq<char>,
) -> Result<u64, ResolveError> {
    spec_field_offset_with(m, klass, name, REDIRECT_CAP as nat)
}

/// Resolve the byte offset of the named field of a class out of the
/// runtime's field-descriptor table, following at most [`REDIRECT_CAP`]
/// generic-instantiation redirections.
#[verifier::loop_isolation(false)]
pub fn class_field_offset(mem: &MemSnapshot, klass: u64, name: &str) -> (r: Result<
    u64,
    ResolveError,
>)
    ensures
        r == spec_field_offset(mem@, klass, name@),
{
    let ghost whole = spec_field_offset_with(mem@, klass, name@, REDIRECT_CAP as nat);
    let mut cur: u64 = klass;
    let mut fuel: u32 = REDIRECT_CAP;
    loop
        invariant
            0 <= fuel <= REDIRECT_CAP,
            whole == spec_field_offset_with(mem@, cur, name@, fuel as nat),
        decreases fuel,
    {
        let kind_byte: u8 = match mem.read_u8_at(cur, CLASS_KIND_OFFSET) {
            Ok(v) => v,
            Err(e) => {
                return Err(ResolveError::Read(e));
            },
        };
        let kind = kind_byte & 7;
        if kind == 3 {
            if fuel == 0 {
                return Err(ResolveError::Malformed);
            }
            let p1: u64 = match mem.read_u64_at(cur, CLASS_REDIRECT_OFFSET) {
                Ok(v) => v,
                Err(e) => {
                    return Err(ResolveError::Read(e));
                },
            };
            let def: u64 = match mem.read_u64_at(p1, 0) {
                Ok(v) => v,
                Err(e) => {
                    return Err(ResolveError::Read(e));
                },
            };
            cur = def;
            fuel = fuel - 1;
            continue ;
        }
        if kind != 1 && kind != 2 {
            return Err(ResolveError::Malformed);
        }
        let count: i32 = match mem.read_i32_at(cur, CLASS_FIELD_COUNT_OFFSET) {
            Ok(v) => v,
            Err(e) => {
                return Err(ResolveError::Read(e));
            },
        };
        if count < 0 {
            return Err(ResolveError::Malformed);
        }
        let fp: u64 = match mem.read_u64_at(cur, CLASS_FIELD_TABLE_OFFSET) {
            Ok(v) => v,
            Err(e) => {
                return Err(ResolveError::Read(e));
            },
        };
        let ghost scan = spec_scan_fields(mem@, fp, name@, 0, count as nat);
        let mut idx: u32 = 0;
        let count_u: u32 = count as u32;
        while idx < count_u
            invariant
                0 <= idx <= count_u,
                count_u == count,
                scan == spec_scan_fields(mem@, fp, name@, idx as nat, count as nat),
            decreases count_u - idx,
        {
            let rec_off: u64 = (idx as u64) * FIELD_RECORD_SIZE;
            let name_ptr: u64 = match mem.read_u64_at(fp, rec_off + 8) {
                Ok(v) => v,
                Err(e) => {
                    return Err(ResolveError::Read(e));
                },
            };
            let fname = match mem.read_c_string_at(name_ptr, 0, FIELD_NAME_MAX) {
                Ok(v) => v,
                Err(e) => {
                    return Err(ResolveError::Read(e));
                },
            };
            if bytes_eq_str(&fname, name) {
                let w: u64 = match mem.read_u64_at(fp, rec_off + 24) {
                    Ok(v) => v,
                    Err(e) => {
                        return Err(ResolveError::Read(e));
                    },
                };
                return Ok(w & 0xffff_ffff);
            }
            idx = idx + 1;
        }
        return Err(ResolveError::NotFound);
    }
}

/// The address of the class's static-field storage: the slot right after
/// the class's vtable, whose length is read from the class record each
/// time, since it differs from class to class.
pub open spec fn spec_class_static_fields(m: Map<u64, Option<u8>>, klass: u64) -> Result<
    u64,
    ReadError,
> {
    match sread_u64(m, klass + CLASS_RUNTIME_INFO_OFFSET) {
        Err(e) => Err(e),
        Ok(ri) => match sread_u64(m, ri + RUNTIME_INFO_VTABLE_OFFSET) {
            Err(e) => Err(e),
            Ok(vt) => match sread_u32(m, klass + CLASS_VTABLE_SIZE_OFFSET) {
                Err(e) => Err(e),
                Ok(vs) => sread_u64(m, vt + VTABLE_HEADER_SIZE + vs * 8),
            },
        },
    }
}

/// Locate the static-field storage of a class.
pub fn class_static_fields(mem: &MemSnapshot, klass: u64) -> (r: Result<u64, ReadError>)
    ensures
        r == spec_class_static_fields(mem@, klass),
{
    let ri: u64 = match mem.read_u64_at(klass, CLASS_RUNTIME_INFO_OFFSET) {
        Ok(v) => v,
        Err(e) => {
            return Err(e);
        },
    };
    let vt: u64 = match mem.read_u64_at(ri, RUNTIME_INFO_VTABLE_OFFSET) {
        Ok(v) => v,
        Err(e) => {
            return Err(e);
        },
    };
    let vs: u32 = match mem.read_u32_at(klass, CLASS_VTABLE_SIZE_OFFSET) {
        Ok(v) => v,
        Err(e) => {
            return Err(e);
        },
    };
    mem.read_u64_at(vt, VTABLE_HEADER_SIZE + (vs as u64) * 8)
}

/// The class of an object: the first pointer-sized word of the object
/// with the runtime's lock tag bit cleared, dereferenced once.
pub open spec fn spec_instance_class(m: Map<u64, Option<u8>>, instance: u64) -> Result<
    u64,
    ReadError,
> {
    match sread_u64(m, instance as int) {
        Err(e) => Err(e),
        Ok(p) => sread_u64(m, (p & 0xffff_ffff_ffff_fffe) as int),
    }
}

/// Resolve the class of an object, clearing the header's tag bit before
/// the pointer is followed.
pub fn instance_class(mem: &MemSnapshot, instance: u64) -> (r: Result<u64, ReadError>)
    ensures
        r == spec_instance_class(mem@, instance),
{
    let p: u64 = match mem.read_u64_at(instance, 0) {
        Ok(v) => v,
        Err(e) => {
            return Err(e);
        },
    };
    mem.read_u64_at(p & 0xffff_ffff_ffff_fffe, 0)
}

/// The pointer-sized value of the named instance field of an object.
pub open spec fn spec_field_u64(
    m: Map<u64, Option<u8>>,
    instance: u64,
    name: Seq<char>,
) -> Result<u64, ResolveError> {
    match spec_instance_class(m, instance) {
        Err(e) => Err(ResolveError::Read(e)),
        Ok(klass) => match spec_field_offset(m, klass, name) {
            Err(e) => Err(e),
            Ok(off) => match sread_u64(m, off + instance) {
                Err(e) => Err(ResolveError::Read(e)),
                Ok(v) => Ok(v),
            },
        },
    }
}

/// Read the pointer-sized value of the named instance field of an object.
pub fn field(mem: &MemSnapshot, instance: u64, name: &str) -> (r: Result<u64, ResolveError>)
    ensures
        r == spec_field_u64(mem@, instance, name@),
{
    let klass: u64 = match instance_class(mem, instance) {
        Ok(v) => v,
        Err(e) => {
            return Err(ResolveError::Read(e));
        },
    };
    let off: u64 = match class_field_offset(mem, klass, name) {
        Ok(v) => v,
        Err(e) => {
            return Err(e);
        },
    };
    match mem.read_u64_at(instance, off) {
        Ok(v) => Ok(v),
        Err(e) => Err(ResolveError::Read(e)),
    }
}

/// The pointer-sized value of the named static field of a class.
pub open spec fn spec_static_field_u64(
    m: Map<u64, Option<u8>>,
    klass: u64,
    name: Seq<char>,
) -> Result<u64, ResolveError> {
    match spec_field_offset(m, klass, name) {
        Err(e) => Err(e),
        Ok(off) => match spec_class_static_fields(m, klass) {
            Err(e) => Err(ResolveError::Read(e)),
            Ok(sp) => match sread_u64(m, sp + off) {
                Err(e) => Err(ResolveError::Read(e)),
                Ok(v) => Ok(v),
            },
        },
    }
}

/// Read the pointer-sized value of the named static field of a class.
pub fn static_field(mem: &MemSnapshot, klass: u64, name: &str) -> (r: Result<u64, ResolveError>)
    ensures
        r == spec_static_field_u64(mem@, klass, name@),
{
    let off: u64 = match class_field_offset(mem, klass, name) {
        Ok(v) => v,
        Err(e) => {
            return Err(e);
        },
    };
    let sp: u64 = match class_static_fields(mem, klass) {
        Ok(v) => v,
        Err(e) => {
            return Err(ResolveError::Read(e));
        },
    };
    match mem.read_u64_at(sp, off) {
        Ok(v) => Ok(v),
        Err(e) => Err(ResolveError::Read(e)),
    }
}

/// Address of the runtime's domain-list pointer in the target process.
pub const DOMAINS_LIST_ADDR: u64 = 0xA17698;

/// Offset of the name pointer within a domain record.
pub const DOMAIN_NAME_OFFSET: u64 = 0xd8;

/// Offset of the assembly pointer within a domain record.
pub const DOMAIN_ASSEMBLY_OFFSET: u64 = 0xd0;

/// Offset of the image pointer within an assembly record.
pub const ASSEMBLY_IMAGE_OFFSET: u64 = 0x60;

/// Offset of the class cache within an image record.
pub const IMAGE_CLASS_CACHE_OFFSET: u64 = 1216;

/// Bytes of object header before the auto-splitter info struct's fields.
pub const ASI_HEADER_SIZE: u64 = 0x10;

/// The name of a domain record: `None` for the null domain, else the
/// bounded name its name pointer leads to.
pub open spec fn spec_domain_name(m: Map<u64, Option<u8>>, domain: u64) -> Result<
    Option<Seq<u8>>,
    ReadError,
> {
    if domain == 0 {
        Ok(None)
    } else {
        match sread_u64(m, domain + DOMAIN_NAME_OFFSET) {
            Err(e) => Err(e),
            Ok(p) => match sread_cstr(m, p as int, CLASS_NAME_MAX as nat) {
                Err(e) => Err(e),
                Ok(nm) => Ok(Some(nm)),
            },
        }
    }
}

/// The address of the game's auto-splitter info struct: from the
/// runtime's domain list, through the game's domain (the second when one
/// was created, else the first, which must be named for the game), its
/// assembly and image, to the image's class cache; there the game's main
/// class, its static singleton, and the singleton's auto-splitter info
/// field, past the object header.
pub open spec fn spec_locate(m: Map<u64, Option<u8>>) -> Result<u64, ResolveError> {
    match sread_u64(m, DOMAINS_LIST_ADDR as int) {
        Err(e) => Err(ResolveError::Read(e)),
        Ok(dl) => match sread_u64(m, dl as int) {
            Err(e) => Err(ResolveError::Read(e)),
            Ok(d1) => match sread_u64(m, dl + 8) {
                Err(e) => Err(ResolveError::Read(e)),
                Ok(d2) => match spec_domain_name(m, d1) {
                    Err(e) => Err(ResolveError::Read(e)),
                    Ok(n1) => match spec_domain_name(m, d2) {
                        Err(e) => Err(ResolveError::Read(e)),
                        Ok(_n2) => if !(n1 matches Some(nm) && bytes_match(nm, "Celeste.exe"@)) {
                            Err(ResolveError::NotFound)
                        } else {
                            let dom = if d2 != 0 {
                                d2
                            } else {
                                d1
                            };
                            match sread_u64(m, dom + DOMAIN_ASSEMBLY_OFFSET) {
                                Err(e) => Err(ResolveError::Read(e)),
                                Ok(assembly) => match sread_u64(m, assembly + ASSEMBLY_IMAGE_OFFSET) {
                                    Err(e) => Err(ResolveError::Read(e)),
                                    Ok(img) => match spec_lookup_class(
                                        m,
                                        img + IMAGE_CLASS_CACHE_OFFSET,
                                        "Celeste"@,
                                    ) {
                                        Err(e) => Err(e),
                                        Ok(cls) => match spec_static_field_u64(
                                            m,
                                            cls,
                                            "Instance"@,
                                        ) {
                                            Err(e) => Err(e),
                                            Ok(obj) => match spec_field_u64(
                                                m,
                                                obj,
                                                "AutoSplitterInfo"@,
                                            ) {
                                                Err(e) => Err(e),
                                                Ok(asi) => if asi + ASI_HEADER_SIZE
                                                    < 0x1_0000_0000_0000_0000 {
                                                    Ok((asi + ASI_HEADER_SIZE) as u64)
                                                } else {
                                                    Err(ResolveError::Read(ReadError::Unreadable))
                                                },
                                            },
                                        },
                                    },
                                },
                            }
                        },
                    },
                },
            },
        },
    }
}

/// Read the name of a domain record out of the capture.
fn domain_name(mem: &MemSnapshot, domain: u64) -> (r: Result<Option<Vec<u8>>, ReadError>)
    ensures
        match r {
            Ok(None) => spec_domain_name(mem@, domain) == Ok::<Option<Seq<u8>>, ReadError>(
                None::<Seq<u8>>,
            ),
            Ok(Some(v)) => spec_domain_name(mem@, domain) == Ok::<Option<Seq<u8>>, ReadError>(
                Some(v@),
            ),
            Err(e) => spec_domain_name(mem@, domain) == Err::<Option<Seq<u8>>, ReadError>(e),
        },
{
    if domain == 0 {
        return Ok(None);
    }
    let p: u64 = match mem.read_u64_at(domain, DOMAIN_NAME_OFFSET) {
        Ok(v) => v,
        Err(e) => {
            return Err(e);
        },
    };
    match mem.read_c_string_at(p, 0, CLASS_NAME_MAX) {
        Ok(nm) => Ok(Some(nm)),
        Err(e) => Err(e),
    }
}

/// Locate the game's auto-splitter info struct by walking the runtime's
/// domain list, the game image's class cache, and the main class's
/// static singleton. `NotFound` while the game has not loaded yet; any
/// read failure or malformed metadata as the resolvers report it.
pub fn locate_autosplitter_info(mem: &MemSnapshot) -> (r: Result<u64, ResolveError>)
    ensures
        r == spec_locate(mem@),
{
    let dl: u64 = match mem.read_u64_at(DOMAINS_LIST_ADDR, 0) {
        Ok(v) => v,
        Err(e) => {
            return Err(ResolveError::Read(e));
        },
    };
    let d1: u64 = match mem.read_u64_at(dl, 0) {
        Ok(v) => v,
        Err(e) => {
            return Err(ResolveError::Read(e));
        },
    };
    let d2: u64 = match mem.read_u64_at(dl, 8) {
        Ok(v) => v,
        Err(e) => {
            return Err(ResolveError::Read(e));
        },
    };
    let n1 = match domain_name(mem, d1) {
        Ok(v) => v,
        Err(e) => {
            return Err(ResolveError::Read(e));
        },
    };
    let _n2 = match domain_name(mem, d2) {
        Ok(v) => v,
        Err(e) => {
            return Err(ResolveError::Read(e));
        },
    };
    let first_is_game = match &n1 {
        Some(nm) => bytes_eq_str(nm, "Celeste.exe"),
        None => false,
    };
    if !first_is_game {
        return Err(ResolveError::NotFound);
    }
    let dom: u64 = if d2 != 0 {
        d2
    } else {
        d1
    };
    let assembly: u64 = match mem.read_u64_at(dom, DOMAIN_ASSEMBLY_OFFSET) {
        Ok(v) => v,
        Err(e) => {
            return Err(ResolveError::Read(e));
        },
    };
    let img: u64 = match mem.read_u64_at(assembly, ASSEMBLY_IMAGE_OFFSET) {
        Ok(v) => v,
        Err(e) => {
            return Err(ResolveError::Read(e));
        },
    };
    if img > u64::MAX - IMAGE_CLASS_CACHE_OFFSET {
        proof {
            lemma_lookup_out_of_space(mem@, img as int + IMAGE_CLASS_CACHE_OFFSET, "Celeste"@);
        }
        return Err(ResolveError::Read(ReadError::Unreadable));
    }
    let cls: u64 = match lookup_class(mem, img + IMAGE_CLASS_CACHE_OFFSET, "Celeste") {
        Ok(v) => v,
        Err(e) => {
            return Err(e);
        },
    };
    let obj: u64 = match static_field(mem, cls, "Instance") {
        Ok(v) => v,
        Err(e) => {
            return Err(e);
        },
    };
    let asi: u64 = match field(mem, obj, "AutoSplitterInfo") {
        Ok(v) => v,
        Err(e) => {
            return Err(e);
        },
    };
    if asi > u64::MAX - ASI_HEADER_SIZE {
        return Err(ResolveError::Read(ReadError::Unreadable));
    }
    Ok(asi + ASI_HEADER_SIZE)
}

/// A class-cache lookup whose cache address lies past the end of the
/// address space fails on its very first read.
proof fn lemma_lookup_out_of_space(m: Map<u64, Option<u8>>, class_cache: int, name: Seq<char>)
    requires
        class_cache + CACHE_TABLE_OFFSET + 4 > 0x1_0000_0000_0000_0000,
    ensures
        spec_lookup_class(m, class_cache, name) == Err::<u64, ResolveError>(
            ResolveError::Read(ReadError::Unreadable),
        ),
{
}

/// The class record at `k` bears the requested name in the capture.
pub open spec fn class_has_name(m: Map<u64, Option<u8>>, k: u64, name: Seq<char>) -> bool {
    match sread_u64(m, k + CLASS_NAME_OFFSET) {
        Ok(p) => match sread_cstr(m, p as int, CLASS_NAME_MAX as nat) {
            Ok(cname) => bytes_match(cname, name),
            Err(_) => false,
        },
        Err(_) => false,
    }
}

/// A bucket walk that finds a class found one bearing the requested name.
proof fn lemma_walk_bucket_sound(
    m: Map<u64, Option<u8>>,
    klass: u64,
    name: Seq<char>,
    steps: nat,
    k: u64,
)
    requires
        spec_walk_bucket(m, klass, name, steps) == Ok::<u64, ResolveError>(k),
    ensures
        class_has_name(m, k, name),
    decreases steps,
{
    if klass != 0 && steps != 0 {
        match sread_u64(m, klass + CLASS_NAME_OFFSET) {
            Ok(name_ptr) => match sread_cstr(m, name_ptr as int, CLASS_NAME_MAX as nat) {
                Ok(cname) => if !bytes_match(cname, name) {
                    match sread_u64(m, klass + CLASS_NEXT_OFFSET) {
                        Ok(next) => lemma_walk_bucket_sound(m, next, name, (steps - 1) as nat, k),
                        Err(_) => {},
                    }
                },
                Err(_) => {},
            },
            Err(_) => {},
        }
    }
}

/// A bucket scan that finds a class found one bearing the requested name.
proof fn lemma_lookup_buckets_sound(
    m: Map<u64, Option<u8>>,
    table: u64,
    name: Seq<char>,
    bucket: nat,
    size: nat,
    k: u64,
)
    requires
        spec_lookup_buckets(m, table, name, bucket, size) == Ok::<u64, ResolveError>(k),
    ensures
        class_has_name(m, k, name),
    decreases size - bucket,
{
    if bucket < size {
        match sread_u64(m, table + 8 * bucket) {
            Ok(head) => match spec_walk_bucket(m, head, name, BUCKET_STEP_BOUND as nat) {
                Err(ResolveError::NotFound) => lemma_lookup_buckets_sound(
                    m,
                    table,
                    name,
                    bucket + 1,
                    size,
                    k,
                ),
                Ok(found) => lemma_walk_bucket_sound(
                    m,
                    head,
                    name,
                    BUCKET_STEP_BOUND as nat,
                    found,
                ),
                Err(_) => {},
            },
            Err(_) => {},
        }
    }
}

/// Law of soundness: the class the lookup returns really bears the
/// requested name in the capture.
pub proof fn lemma_lookup_class_sound(
    m: Map<u64, Option<u8>>,
    class_cache: int,
    name: Seq<char>,
    k: u64,
)
    requires
        spec_lookup_class(m, class_cache, name) == Ok::<u64, ResolveError>(k),
    ensures
        class_has_name(m, k, name),
{
    match sread_u32(m, class_cache + CACHE_TABLE_OFFSET) {
        Ok(table) => match sread_u32(m, class_cache + CACHE_SIZE_OFFSET) {
            Ok(size) => lemma_lookup_buckets_sound(m, table as u64, name, 0, size as nat, k),
            Err(_) => {},
        },
        Err(_) => {},
    }
}

/// Law of determinism: for one capture of a class-cache table the lookup
/// has one result, however often and in whatever order it is asked — the
/// executable `lookup_class` returns exactly `spec_lookup_class` of the
/// capture, so two results of it on equal arguments are equal.
pub proof fn lemma_lookup_class_deterministic(
    m: Map<u64, Option<u8>>,
    class_cache: int,
    name: Seq<char>,
    r1: Result<u64, ResolveError>,
    r2: Result<u64, ResolveError>,
)
    requires
        r1 == spec_lookup_class(m, class_cache, name),
        r2 == spec_lookup_class(m, class_cache, name),
    ensures
        r1 == r2,
{
}

/// Record `idx` of a field-descriptor table bears the requested name,
/// and `off` is the low half of its fourth word.
pub open spec fn field_record_gives(
    m: Map<u64, Option<u8>>,
    fields_ptr: u64,
    name: Seq<char>,
    idx: nat,
    off: u64,
) -> bool {
    let rec = fields_ptr + idx * FIELD_RECORD_SIZE;
    match sread_u64(m, rec + 8) {
        Ok(p) => match sread_cstr(m, p as int, FIELD_NAME_MAX as nat) {
            Ok(fname) => bytes_match(fname, name) && match sread_u64(m, rec + 24) {
                Ok(w) => off == w & 0xffff_ffff,
                Err(_) => false,
            },
            Err(_) => false,
        },
        Err(_) => false,
    }
}

/// A field scan that returns an offset took it from a matching record.
proof fn lemma_scan_fields_sound(
    m: Map<u64, Option<u8>>,
    fields_ptr: u64,
    name: Seq<char>,
    idx: nat,
    count: nat,
    off: u64,
)
    requires
        spec_scan_fields(m, fields_ptr, name, idx, count) == Ok::<u64, ResolveError>(off),
    ensures
        exists|j: nat|
            idx <= j < count && #[trigger] field_record_gives(m, fields_ptr, name, j, off),
    decreases count - idx,
{
    if idx < count {
        let rec = fields_ptr + idx * FIELD_RECORD_SIZE;
        match sread_u64(m, rec + 8) {
            Ok(p) => match sread_cstr(m, p as int, FIELD_NAME_MAX as nat) {
                Ok(fname) => if bytes_match(fname, name) {
                    assert(field_record_gives(m, fields_ptr, name, idx, off));
                } else {
                    lemma_scan_fields_sound(m, fields_ptr, name, idx + 1, count, off);
                },
                Err(_) => {},
            },
            Err(_) => {},
        }
    }
}

/// Law of the field scan: an offset resolved on a plain or value-type
/// class is the low half of the fourth word of a record of its
/// field-descriptor table whose name matches.
pub proof fn lemma_field_offset_sound(
    m: Map<u64, Option<u8>>,
    klass: u64,
    name: Seq<char>,
    count: i32,
    fields_ptr: u64,
    off: u64,
)
    requires
        spec_class_kind(m, klass) == Ok::<u8, ReadError>(1u8) || spec_class_kind(m, klass) == Ok::<
            u8,
            ReadError,
        >(2u8),
        sread_i32(m, klass + CLASS_FIELD_COUNT_OFFSET) == Ok::<i32, ReadError>(count),
        sread_u64(m, klass + CLASS_FIELD_TABLE_OFFSET) == Ok::<u64, ReadError>(fields_ptr),
        spec_field_offset(m, klass, name) == Ok::<u64, ResolveError>(off),
    ensures
        exists|j: nat|
            j < count && #[trigger] field_record_gives(m, fields_ptr, name, j, off),
{
    lemma_scan_fields_sound(m, fields_ptr, name, 0, count as nat, off);
}

/// One redirection step, unconditionally: a generic instantiation whose
/// indirection is readable resolves exactly as its target does with one
/// less redirection left. The cap is the only asymmetry: a target that
/// is itself a chain of instantiations can exhaust its budget one step
/// earlier.
pub proof fn lemma_field_offset_redirect_step(
    m: Map<u64, Option<u8>>,
    klass: u64,
    name: Seq<char>,
    p1: u64,
    def: u64,
)
    requires
        spec_class_kind(m, klass) == Ok::<u8, ReadError>(3u8),
        sread_u64(m, klass + CLASS_REDIRECT_OFFSET) == Ok::<u64, ReadError>(p1),
        sread_u64(m, p1 as int) == Ok::<u64, ReadError>(def),
    ensures
        spec_field_offset(m, klass, name) == spec_field_offset_with(
            m,
            def,
            name,
            (REDIRECT_CAP - 1) as nat,
        ),
{
    reveal_with_fuel(spec_field_offset_with, 2);
}

/// Law of the generic redirection: resolving a field offset on a
/// generic-instantiation class equals resolving it on the generic
/// definition the instantiation redirects to, whenever that definition
/// is itself a plain or value-type class (the only legitimate case).
pub proof fn lemma_field_offset_generic_redirect(
    m: Map<u64, Option<u8>>,
    klass: u64,
    name: Seq<char>,
    p1: u64,
    def: u64,
)
    requires
        spec_class_kind(m, klass) == Ok::<u8, ReadError>(3u8),
        sread_u64(m, klass + CLASS_REDIRECT_OFFSET) == Ok::<u64, ReadError>(p1),
        sread_u64(m, p1 as int) == Ok::<u64, ReadError>(def),
        spec_class_kind(m, def) == Ok::<u8, ReadError>(1u8) || spec_class_kind(m, def) == Ok::<
            u8,
            ReadError,
        >(2u8),
    ensures
        spec_field_offset(m, klass, name) == spec_field_offset(m, def, name),
{
    reveal_with_fuel(spec_field_offset_with, 3);
}

} // verus!
