//! A partial capture of the target process's memory.
//!
//! The target process cannot be read from verified code, so the library
//! works on a `MemSnapshot`: a map from address to captured byte. A byte is
//! either known with its value, known to be unreadable (the probe failed),
//! or not captured at all. Every reader below reports exactly which of the
//! three cases it hit, so the host shim can fetch what is missing and run
//! the same, fully deterministic, computation again.

use std::collections::HashMap;
use vstd::prelude::*;

verus! {

broadcast use vstd::std_specs::hash::group_hash_axioms;

/// Why a read out of the capture produced no value.
#[derive(Copy, Clone, PartialEq, Eq, Structural, Debug)]
pub enum ReadError {
    /// The range is recorded as unreadable in the target process, or it
    /// runs past the end of the address space.
    Unreadable,
    /// The capture holds nothing for some byte of the range. The host shim
    /// should read exactly this range from the process and record it.
    NotCaptured { addr: u64, len: u64 },
}

/// The range `addr .. addr + len` stays within the 64-bit address space.
pub open spec fn range_in_space(addr: u64, len: nat) -> bool {
    addr + len <= 0x1_0000_0000_0000_0000
}

/// Every byte of the range was probed (with or without success).
pub open spec fn range_captured(m: Map<u64, Option<u8>>, addr: u64, len: nat) -> bool {
    forall|i: int| 0 <= i < len ==> m.dom().contains(#[trigger] ((addr + i) as u64))
}

/// The range lies in the address space and every byte of it was captured
/// with a value.
pub open spec fn range_readable(m: Map<u64, Option<u8>>, addr: u64, len: nat) -> bool {
    &&& range_in_space(addr, len)
    &&& forall|i: int|
        0 <= i < len ==> m.dom().contains(#[trigger] ((addr + i) as u64)) && m[(addr + i) as u64] is Some
}

/// The captured bytes of a readable range, in address order.
pub open spec fn bytes_at(m: Map<u64, Option<u8>>, addr: u64, len: nat) -> Seq<u8> {
    Seq::new(len, |i: int| m[(addr + i) as u64].unwrap())
}

/// A partial capture of the target process's memory. `None` against an
/// address records that the address was probed and found unreadable.
pub struct MemSnapshot {
    bytes: HashMap<u64, Option<u8>>,
}

impl View for MemSnapshot {
    type V = Map<u64, Option<u8>>;

    closed spec fn view(&self) -> Map<u64, Option<u8>> {
        self.bytes@
    }
}

impl MemSnapshot {
    /// An empty capture: nothing is known of the target process yet.
    pub fn new() -> (r: MemSnapshot)
        ensures
            r@ == Map::<u64, Option<u8>>::empty(),
    {
        MemSnapshot { bytes: HashMap::new() }
    }

    /// Record a block of bytes read from the target process at `addr`.
    /// Addresses outside the block keep what the capture had for them.
    #[verifier::loop_isolation(false)]
    pub fn record_block(&mut self, addr: u64, data: &[u8])
        requires
            range_in_space(addr, data@.len()),
        ensures
            range_readable(final(self)@, addr, data@.len()),
            bytes_at(final(self)@, addr, data@.len()) == data@,
            forall|a: u64|
                !(addr <= a < addr + data@.len()) ==> (
                (#[trigger] final(self)@.dom().contains(a)) == old(self)@.dom().contains(a)
                    && (old(self)@.dom().contains(a) ==> final(self)@[a] == old(self)@[a])),
    {
        let len: usize = data.len();
        let mut i: usize = 0;
        while i < len
            invariant
                len == data@.len(),
                0 <= i <= len,
                range_in_space(addr, len as nat),
                forall|j: int|
                    0 <= j < i ==> self@.dom().contains(#[trigger] ((addr + j) as u64))
                        && self@[(addr + j) as u64] == Some(data@[j]),
                forall|a: u64|
                    !(addr <= a < addr + len as nat) ==> (
                    (#[trigger] self@.dom().contains(a)) == old(self)@.dom().contains(a)
                        && (old(self)@.dom().contains(a) ==> self@[a] == old(self)@[a])),
            decreases len - i,
        {
            let ghost prev = self@;
            let b = data[i];
            self.bytes.insert(addr + (i as u64), Some(b));
            proof {
                assert(self@ == prev.insert((addr + i) as u64, Some(b)));
            }
            i = i + 1;
        }
        assert(bytes_at(self@, addr, data@.len()) =~= data@);
    }

    /// Record that the target process refused a read of `addr .. addr + len`.
    #[verifier::loop_isolation(false)]
    pub fn record_unreadable(&mut self, addr: u64, len: u64)
        requires
            range_in_space(addr, len as nat),
        ensures
            range_captured(final(self)@, addr, len as nat),
            forall|i: int|
                0 <= i < len ==> final(self)@[#[trigger] ((addr + i) as u64)] == None::<u8>,
            forall|a: u64|
                !(addr <= a < addr + len as nat) ==> (
                (#[trigger] final(self)@.dom().contains(a)) == old(self)@.dom().contains(a)
                    && (old(self)@.dom().contains(a) ==> final(self)@[a] == old(self)@[a])),
    {
        let mut i: u64 = 0;
        while i < len
            invariant
                0 <= i <= len,
                range_in_space(addr, len as nat),
                forall|j: int|
                    0 <= j < i ==> self@.dom().contains(#[trigger] ((addr + j) as u64))
                        && self@[(addr + j) as u64] == None::<u8>,
                forall|a: u64|
                    !(addr <= a < addr + len as nat) ==> (
                    (#[trigger] self@.dom().contains(a)) == old(self)@.dom().contains(a)
                        && (old(self)@.dom().contains(a) ==> self@[a] == old(self)@[a])),
            decreases len - i,
        {
            let ghost prev = self@;
            self.bytes.insert(addr + i, None);
            proof {
                assert(self@ == prev.insert((addr + i) as u64, None::<u8>));
            }
            i = i + 1;
        }
    }

    /// Read `len` bytes at `addr` out of the capture. Succeeds exactly when
    /// the whole range is captured and readable; otherwise says whether the
    /// range is missing from the capture or known unreadable.
    #[verifier::loop_isolation(false)]
    pub fn read_bytes(&self, addr: u64, len: u64) -> (r: Result<Vec<u8>, ReadError>)
        ensures
            match r {
                Ok(v) => range_readable(self@, addr, len as nat) && v@ == bytes_at(
                    self@,
                    addr,
                    len as nat,
                ),
                Err(ReadError::NotCaptured { addr: a, len: l }) => a == addr && l == len
                    && range_in_space(addr, len as nat) && !range_captured(
                    self@,
                    addr,
                    len as nat,
                ),
                Err(ReadError::Unreadable) => !range_in_space(addr, len as nat) || (range_captured(
                    self@,
                    addr,
                    len as nat,
                ) && !range_readable(self@, addr, len as nat)),
            },
    {
        if len > 0 && addr > 0xFFFF_FFFF_FFFF_FFFFu64 - (len - 1) {
            return Err(ReadError::Unreadable);
        }
        let mut i: u64 = 0;
        while i < len
            invariant
                0 <= i <= len,
                range_in_space(addr, len as nat),
                forall|j: int| 0 <= j < i ==> self@.dom().contains(#[trigger] ((addr + j) as u64)),
            decreases len - i,
        {
            if !self.bytes.contains_key(&(addr + i)) {
                return Err(ReadError::NotCaptured { addr, len });
            }
            i = i + 1;
        }
        let mut out: Vec<u8> = Vec::new();
        let mut k: u64 = 0;
        while k < len
            invariant
                0 <= k <= len,
                range_in_space(addr, len as nat),
                range_captured(self@, addr, len as nat),
                out@.len() == k,
                forall|j: int|
                    0 <= j < k ==> self@[#[trigger] ((addr + j) as u64)] is Some && out@[j]
                        == self@[(addr + j) as u64].unwrap(),
            decreases len - k,
        {
            match self.bytes.get(&(addr + k)) {
                Some(slot) => match slot {
                    Some(b) => {
                        out.push(*b);
                    },
                    None => {
                        return Err(ReadError::Unreadable);
                    },
                },
                None => {
                    return Err(ReadError::Unreadable);
                },
            }
            k = k + 1;
        }
        assert(out@ =~= bytes_at(self@, addr, len as nat));
        Ok(out)
    }

    /// Read one byte.
    pub fn read_u8(&self, addr: u64) -> (r: Result<u8, ReadError>)
        ensures
            match r {
                Ok(v) => range_readable(self@, addr, 1) && v == bytes_at(self@, addr, 1)[0],
                Err(e) => read_fails(self@, addr, 1, e),
            },
    {
        let v = self.read_bytes(addr, 1)?;
        Ok(v[0])
    }

    /// Read a 16-bit little-endian value.
    pub fn read_u16(&self, addr: u64) -> (r: Result<u16, ReadError>)
        ensures
            match r {
                Ok(v) => range_readable(self@, addr, 2) && v
                    == vstd::bytes::spec_u16_from_le_bytes(bytes_at(self@, addr, 2)),
                Err(e) => read_fails(self@, addr, 2, e),
            },
    {
        let v = self.read_bytes(addr, 2)?;
        Ok(vstd::bytes::u16_from_le_bytes(v.as_slice()))
    }

    /// Read a 32-bit little-endian value.
    pub fn read_u32(&self, addr: u64) -> (r: Result<u32, ReadError>)
        ensures
            match r {
                Ok(v) => range_readable(self@, addr, 4) && v
                    == vstd::bytes::spec_u32_from_le_bytes(bytes_at(self@, addr, 4)),
                Err(e) => read_fails(self@, addr, 4, e),
            },
    {
        let v = self.read_bytes(addr, 4)?;
        Ok(vstd::bytes::u32_from_le_bytes(v.as_slice()))
    }

    /// Read a 64-bit little-endian value.
    pub fn read_u64(&self, addr: u64) -> (r: Result<u64, ReadError>)
        ensures
            match r {
                Ok(v) => range_readable(self@, addr, 8) && v
                    == vstd::bytes::spec_u64_from_le_bytes(bytes_at(self@, addr, 8)),
                Err(e) => read_fails(self@, addr, 8, e),
            },
    {
        let v = self.read_bytes(addr, 8)?;
        Ok(vstd::bytes::u64_from_le_bytes(v.as_slice()))
    }

    /// Read a 32-bit little-endian value as a signed integer.
    pub fn read_i32(&self, addr: u64) -> (r: Result<i32, ReadError>)
        ensures
            match r {
                Ok(v) => range_readable(self@, addr, 4) && v as int == as_signed_32(
                    vstd::bytes::spec_u32_from_le_bytes(bytes_at(self@, addr, 4)),
                ),
                Err(e) => read_fails(self@, addr, 4, e),
            },
    {
        let v = self.read_u32(addr)?;
        Ok(to_i32(v))
    }

    /// Read a 64-bit little-endian value as a signed integer.
    pub fn read_i64(&self, addr: u64) -> (r: Result<i64, ReadError>)
        ensures
            match r {
                Ok(v) => range_readable(self@, addr, 8) && v as int == as_signed_64(
                    vstd::bytes::spec_u64_from_le_bytes(bytes_at(self@, addr, 8)),
                ),
                Err(e) => read_fails(self@, addr, 8, e),
            },
    {
        let v = self.read_u64(addr)?;
        Ok(to_i64(v))
    }

    /// Read a NUL-terminated name out of a fixed `max`-byte buffer at
    /// `addr`: the whole buffer must be readable, the result is what stands
    /// before the first NUL (or the whole buffer if it has none).
    #[verifier::loop_isolation(false)]
    pub fn read_c_string(&self, addr: u64, max: u64) -> (r: Result<Vec<u8>, ReadError>)
        ensures
            match r {
                Ok(v) => range_readable(self@, addr, max as nat) && v@ == cut_at_nul(
                    bytes_at(self@, addr, max as nat),
                ),
                Err(e) => read_fails(self@, addr, max as nat, e),
            },
    {
        let buf = self.read_bytes(addr, max)?;
        let mut out: Vec<u8> = Vec::new();
        let n: usize = buf.len();
        let mut i: usize = 0;
        while i < n
            invariant
                n == buf@.len(),
                0 <= i <= n,
                forall|j: int| 0 <= j < i ==> buf@[j] != 0,
                out@ == buf@.take(i as int),
            decreases n - i,
        {
            if buf[i] == 0 {
                proof {
                    lemma_cut_at_nul(buf@, i as int);
                }
                return Ok(out);
            }
            out.push(buf[i]);
            assert(out@ =~= buf@.take(i + 1));
            i = i + 1;
        }
        proof {
            lemma_cut_at_nul(buf@, n as int);
            assert(buf@.take(n as int) =~= buf@);
        }
        Ok(out)
    }
}

/// What a read of `len` bytes at the (unbounded) address `addr` yields
/// from the capture: the bytes, or the exact error the readers report. An
/// address outside the 64-bit space is unreadable.
pub open spec fn sread(m: Map<u64, Option<u8>>, addr: int, len: nat) -> Result<Seq<u8>, ReadError> {
    if 0 <= addr < 0x1_0000_0000_0000_0000 && addr + len <= 0x1_0000_0000_0000_0000 {
        if range_readable(m, addr as u64, len) {
            Ok(bytes_at(m, addr as u64, len))
        } else if !range_captured(m, addr as u64, len) {
            Err(ReadError::NotCaptured { addr: addr as u64, len: len as u64 })
        } else {
            Err(ReadError::Unreadable)
        }
    } else {
        Err(ReadError::Unreadable)
    }
}

/// A one-byte read out of the capture.
pub open spec fn sread_u8(m: Map<u64, Option<u8>>, addr: int) -> Result<u8, ReadError> {
    match sread(m, addr, 1) {
        Ok(b) => Ok(b[0]),
        Err(e) => Err(e),
    }
}

/// A 32-bit little-endian read out of the capture.
pub open spec fn sread_u32(m: Map<u64, Option<u8>>, addr: int) -> Result<u32, ReadError> {
    match sread(m, addr, 4) {
        Ok(b) => Ok(vstd::bytes::spec_u32_from_le_bytes(b)),
        Err(e) => Err(e),
    }
}

/// A 64-bit little-endian read out of the capture.
pub open spec fn sread_u64(m: Map<u64, Option<u8>>, addr: int) -> Result<u64, ReadError> {
    match sread(m, addr, 8) {
        Ok(b) => Ok(vstd::bytes::spec_u64_from_le_bytes(b)),
        Err(e) => Err(e),
    }
}

/// A 32-bit little-endian read, reinterpreted as a signed integer.
pub open spec fn sread_i32(m: Map<u64, Option<u8>>, addr: int) -> Result<i32, ReadError> {
    match sread_u32(m, addr) {
        Ok(u) => Ok(as_signed_32(u) as i32),
        Err(e) => Err(e),
    }
}

/// A 64-bit little-endian read, reinterpreted as a signed integer.
pub open spec fn sread_i64(m: Map<u64, Option<u8>>, addr: int) -> Result<i64, ReadError> {
    match sread(m, addr, 8) {
        Ok(b) => Ok(as_signed_64(vstd::bytes::spec_u64_from_le_bytes(b)) as i64),
        Err(e) => Err(e),
    }
}

/// A NUL-terminated name read out of a fixed `max`-byte buffer.
pub open spec fn sread_cstr(m: Map<u64, Option<u8>>, addr: int, max: nat) -> Result<
    Seq<u8>,
    ReadError,
> {
    match sread(m, addr, max) {
        Ok(b) => Ok(cut_at_nul(b)),
        Err(e) => Err(e),
    }
}

impl MemSnapshot {
    /// Read one byte at `base + off`, an address that may lie past the end
    /// of the address space.
    pub fn read_u8_at(&self, base: u64, off: u64) -> (r: Result<u8, ReadError>)
        ensures
            r == sread_u8(self@, base + off),
    {
        if base > u64::MAX - off {
            return Err(ReadError::Unreadable);
        }
        self.read_u8(base + off)
    }

    /// Read a 32-bit little-endian value at `base + off`.
    pub fn read_u32_at(&self, base: u64, off: u64) -> (r: Result<u32, ReadError>)
        ensures
            r == sread_u32(self@, base + off),
    {
        if base > u64::MAX - off {
            return Err(ReadError::Unreadable);
        }
        self.read_u32(base + off)
    }

    /// Read a 64-bit little-endian value at `base + off`.
    pub fn read_u64_at(&self, base: u64, off: u64) -> (r: Result<u64, ReadError>)
        ensures
            r == sread_u64(self@, base + off),
    {
        if base > u64::MAX - off {
            return Err(ReadError::Unreadable);
        }
        self.read_u64(base + off)
    }

    /// Read a 32-bit little-endian value at `base + off` as a signed
    /// integer.
    pub fn read_i32_at(&self, base: u64, off: u64) -> (r: Result<i32, ReadError>)
        ensures
            r == sread_i32(self@, base + off),
    {
        if base > u64::MAX - off {
            return Err(ReadError::Unreadable);
        }
        self.read_i32(base + off)
    }

    /// Read a 64-bit little-endian value at `base + off` as a signed
    /// integer.
    pub fn read_i64_at(&self, base: u64, off: u64) -> (r: Result<i64, ReadError>)
        ensures
            r == sread_i64(self@, base + off),
    {
        if base > u64::MAX - off {
            return Err(ReadError::Unreadable);
        }
        self.read_i64(base + off)
    }

    /// Read a NUL-terminated name out of a fixed `max`-byte buffer at
    /// `base + off`.
    pub fn read_c_string_at(&self, base: u64, off: u64, max: u64) -> (r: Result<
        Vec<u8>,
        ReadError,
    >)
        ensures
            match r {
                Ok(v) => sread_cstr(self@, base + off, max as nat) == Ok::<Seq<u8>, ReadError>(
                    v@,
                ),
                Err(e) => sread_cstr(self@, base + off, max as nat) == Err::<Seq<u8>, ReadError>(
                    e,
                ),
            },
    {
        if base > u64::MAX - off {
            return Err(ReadError::Unreadable);
        }
        self.read_c_string(base + off, max)
    }
}

/// How a failed read relates to the capture: the error names the missing
/// range exactly, or the range is known unreadable (or out of the space).
pub open spec fn read_fails(m: Map<u64, Option<u8>>, addr: u64, len: nat, e: ReadError) -> bool {
    match e {
        ReadError::NotCaptured { addr: a, len: l } => a == addr && l == len && range_in_space(
            addr,
            len,
        ) && !range_captured(m, addr, len),
        ReadError::Unreadable => !range_in_space(addr, len) || (range_captured(m, addr, len)
            && !range_readable(m, addr, len)),
    }
}

/// The prefix of `s` that stands before its first NUL byte.
pub open spec fn cut_at_nul(s: Seq<u8>) -> Seq<u8>
    decreases s.len(),
{
    if s.len() == 0 {
        s
    } else if s[0] == 0 {
        Seq::empty()
    } else {
        seq![s[0]] + cut_at_nul(s.drop_first())
    }
}

/// If the first NUL of `s` stands at `i` (or `s` has none and `i` is its
/// length), the part before the first NUL is the first `i` bytes.
pub proof fn lemma_cut_at_nul(s: Seq<u8>, i: int)
    requires
        0 <= i <= s.len(),
        forall|j: int| 0 <= j < i ==> s[j] != 0,
        i < s.len() ==> s[i] == 0,
    ensures
        cut_at_nul(s) == s.take(i),
    decreases i,
{
    if i == 0 {
        if s.len() == 0 {
            assert(cut_at_nul(s) =~= s.take(0));
        } else {
            assert(cut_at_nul(s) =~= s.take(0));
        }
    } else {
        lemma_cut_at_nul(s.drop_first(), i - 1);
        assert(seq![s[0]] + s.drop_first().take(i - 1) =~= s.take(i));
    }
}

/// The value of `u` reinterpreted as a 32-bit two's-complement integer.
pub open spec fn as_signed_32(u: u32) -> int {
    if u < 0x8000_0000 {
        u as int
    } else {
        u as int - 0x1_0000_0000
    }
}

/// The value of `u` reinterpreted as a 64-bit two's-complement integer.
pub open spec fn as_signed_64(u: u64) -> int {
    if u < 0x8000_0000_0000_0000 {
        u as int
    } else {
        u as int - 0x1_0000_0000_0000_0000
    }
}

/// Reinterpret a 32-bit word as a signed integer.
pub fn to_i32(u: u32) -> (r: i32)
    ensures
        r as int == as_signed_32(u),
{
    if u < 0x8000_0000 {
        u as i32
    } else {
        -((0xFFFF_FFFFu32 - u) as i32) - 1
    }
}

/// Reinterpret a 64-bit word as a signed integer.
pub fn to_i64(u: u64) -> (r: i64)
    ensures
        r as int == as_signed_64(u),
{
    if u < 0x8000_0000_0000_0000 {
        u as i64
    } else {
        -((0xFFFF_FFFF_FFFF_FFFFu64 - u) as i64) - 1
    }
}

} // verus!
