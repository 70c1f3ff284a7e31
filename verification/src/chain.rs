//! The pointer-chain resolver: the legacy path used against runtime
//! builds that expose no class metadata.
//!
//! A chain is an ordered sequence of signed offsets. Every offset but the
//! last is added to the current address and the result dereferenced (a
//! pointer-sized read); the last offset is only added. Any intermediate
//! read failure aborts the whole resolution: the result is a failure,
//! never an address derived from a later step.

use vstd::prelude::*;
use crate::memory::{MemSnapshot, ReadError, sread_u64};

verus! {

/// The address a pointer chain resolves to, or the error of the first
/// step that fails. An intermediate address outside the 64-bit space is
/// unreadable.
pub open spec fn spec_chain_resolve(
    m: Map<u64, Option<u8>>,
    base: u64,
    offsets: Seq<i64>,
) -> Result<u64, ReadError>
    decreases offsets.len(),
{
    if offsets.len() == 0 {
        Ok(base)
    } else {
        let addr = base + offsets[0];
        if !(0 <= addr < 0x1_0000_0000_0000_0000) {
            Err(ReadError::Unreadable)
        } else if offsets.len() == 1 {
            Ok(addr as u64)
        } else {
            match sread_u64(m, addr) {
                Ok(next) => spec_chain_resolve(m, next, offsets.drop_first()),
                Err(e) => Err(e),
            }
        }
    }
}

/// Add a signed offset to an address; an address outside the 64-bit
/// space is a failed step.
fn step_addr(base: u64, off: i64) -> (r: Result<u64, ReadError>)
    ensures
        ({
            let addr = base + off;
            if 0 <= addr < 0x1_0000_0000_0000_0000 {
                r == Ok::<u64, ReadError>(addr as u64)
            } else {
                r == Err::<u64, ReadError>(ReadError::Unreadable)
            }
        }),
{
    if off >= 0 {
        let o = off as u64;
        if base > u64::MAX - o {
            Err(ReadError::Unreadable)
        } else {
            Ok(base + o)
        }
    } else {
        let o: u64 = ((-(off + 1)) as u64) + 1;
        if base < o {
            Err(ReadError::Unreadable)
        } else {
            Ok(base - o)
        }
    }
}

/// Resolve a pointer chain against the capture: every offset but the
/// last is added and dereferenced, the last is only added; the first
/// failing step decides the error.
#[verifier::loop_isolation(false)]
pub fn resolve(mem: &MemSnapshot, base: u64, offsets: &Vec<i64>) -> (r: Result<u64, ReadError>)
    ensures
        r == spec_chain_resolve(mem@, base, offsets@),
{
    let ghost whole = spec_chain_resolve(mem@, base, offsets@);
    let mut cur: u64 = base;
    let n: usize = offsets.len();
    let mut i: usize = 0;
    proof {
        assert(offsets@.skip(0) =~= offsets@);
    }
    while i < n
        invariant
            n == offsets@.len(),
            0 <= i <= n,
            whole == spec_chain_resolve(mem@, cur, offsets@.skip(i as int)),
        decreases n - i,
    {
        proof {
            assert(offsets@.skip(i as int).drop_first() =~= offsets@.skip(i + 1));
            assert(offsets@.skip(i as int)[0] == offsets@[i as int]);
        }
        let addr = match step_addr(cur, offsets[i]) {
            Ok(a) => a,
            Err(e) => {
                return Err(e);
            },
        };
        if i == n - 1 {
            return Ok(addr);
        }
        cur = match mem.read_u64(addr) {
            Ok(v) => v,
            Err(e) => {
                return Err(e);
            },
        };
        i = i + 1;
    }
    Ok(cur)
}

/// Law of the three-step chain: with both dereferencing reads succeeding,
/// `resolve` over the offsets `a`, `b`, `c` yields exactly the second
/// read's value plus `c` — dereference twice, then only add.
pub proof fn lemma_chain_three_reads(
    m: Map<u64, Option<u8>>,
    base: u64,
    a: i64,
    b: i64,
    c: i64,
    v1: u64,
    v2: u64,
)
    requires
        0 <= base + a < 0x1_0000_0000_0000_0000,
        sread_u64(m, base + a) == Ok::<u64, ReadError>(v1),
        0 <= v1 + b < 0x1_0000_0000_0000_0000,
        sread_u64(m, v1 + b) == Ok::<u64, ReadError>(v2),
        0 <= v2 + c < 0x1_0000_0000_0000_0000,
    ensures
        spec_chain_resolve(m, base, seq![a, b, c]) == Ok::<u64, ReadError>(((v2 + c) as u64)),
{
    reveal_with_fuel(spec_chain_resolve, 4);
    assert(seq![a, b, c].drop_first() =~= seq![b, c]);
    assert(seq![b, c].drop_first() =~= seq![c]);
}

/// Law of the failing first step: if the read behind the first offset
/// fails, the chain's result is that failure, never a value derived from
/// the later offsets.
pub proof fn lemma_chain_first_read_fails(
    m: Map<u64, Option<u8>>,
    base: u64,
    a: i64,
    b: i64,
    c: i64,
    e: ReadError,
)
    requires
        0 <= base + a < 0x1_0000_0000_0000_0000,
        sread_u64(m, base + a) == Err::<u64, ReadError>(e),
    ensures
        spec_chain_resolve(m, base, seq![a, b, c]) == Err::<u64, ReadError>(e),
{
}

} // verus!
