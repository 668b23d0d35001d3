//! The store façade and the byte-level store primitives.
//!
//! The store owns the linear memories and the fuel budget.  The executor
//! borrows one memory's bytes for the duration of a single store opcode and
//! never retains the borrow across opcode boundaries.

use vstd::prelude::*;
use crate::instr::{StoreWidth, TrapCode};

verus! {

/// The size of a linear-memory page, in bytes.
pub const PAGE_SIZE: u64 = 65536;

/// Byte `k` of the little-endian encoding of a 64-bit value.
pub open spec fn spec_le_byte(value: u64, k: int) -> u8 {
    (value >> (8 * k)) as u8
}

/// The memory after `len` bytes of the little-endian encoding of `value`
/// are written at `addr`; bytes outside that range are unchanged.
pub open spec fn spec_store_bytes(mem: Seq<u8>, addr: int, value: u64, len: int) -> Seq<u8> {
    Seq::new(
        mem.len(),
        |i: int|
            if addr <= i < addr + len {
                spec_le_byte(value, i - addr)
            } else {
                mem[i]
            },
    )
}

/// A linear memory owned by the store.
pub struct MemoryEntity {
    /// The bytes of the memory.
    pub data: Vec<u8>,
}

impl MemoryEntity {
    /// Creates a memory of `pages` zeroed 64 KiB pages.
    pub fn new(pages: u16) -> (r: Self)
        ensures
            r.data.len() == pages * PAGE_SIZE,
            forall|i: int| 0 <= i < r.data.len() ==> r.data[i] == 0,
    {
        let mut data: Vec<u8> = Vec::new();
        let total: usize = (pages as usize) * 65536;
        proof {
            assert(total == pages * PAGE_SIZE);
        }
        let mut i: usize = 0;
        while i < total
            invariant
                i <= total,
                data.len() == i,
                total == pages * PAGE_SIZE,
                forall|j: int| 0 <= j < i ==> data[j] == 0,
            decreases total - i,
        {
            data.push(0);
            i = i + 1;
        }
        MemoryEntity { data }
    }

    /// Borrows the memory's bytes mutably, for the duration of one opcode.
    pub fn data_mut(&mut self) -> (r: &mut Vec<u8>)
        ensures
            *r == old(self).data,
            *final(self) == (MemoryEntity { data: *final(r) }),
    {
        &mut self.data
    }
}

/// Owns the linear memories and the fuel budget of one execution.
pub struct StoreInner {
    /// The linear memories; index 0 is the default memory.
    pub memories: Vec<MemoryEntity>,
    /// The remaining fuel budget.
    pub fuel: u64,
}

impl StoreInner {
    /// Creates a store with no memories and the given fuel budget.
    pub fn new(fuel: u64) -> (r: Self)
        ensures
            r.memories.len() == 0,
            r.fuel == fuel,
    {
        StoreInner { memories: Vec::new(), fuel }
    }

    /// Adds a memory to the store and returns its index.
    pub fn add_memory(&mut self, memory: MemoryEntity) -> (r: usize)
        ensures
            r == old(self).memories.len(),
            final(self).memories@ == old(self).memories@.push(memory),
            final(self).fuel == old(self).fuel,
    {
        let r = self.memories.len();
        self.memories.push(memory);
        r
    }

    /// Resolves a memory of the store for mutation.
    pub fn resolve_memory_mut(&mut self, index: u16) -> (r: &mut MemoryEntity)
        requires
            index < old(self).memories.len(),
        ensures
            *r == old(self).memories@[index as int],
            final(self).memories@ == old(self).memories@.update(index as int, *final(r)),
            final(self).fuel == old(self).fuel,
    {
        &mut self.memories[index as usize]
    }
}

/// Writes one byte of a memory.
fn vec_write_byte(v: &mut Vec<u8>, i: usize, b: u8)
    requires
        i < old(v).len(),
    ensures
        final(v)@ == old(v)@.update(i as int, b),
{
    let r = &mut v[i];
    *r = b;
}

/// Performs a bounds-checked store of the low `width` bytes of `value`,
/// little-endian, at `address + offset`.
///
/// Succeeds exactly when the accessed range lies inside the memory; on
/// failure the memory is unchanged and the store traps with
/// `MemoryOutOfBounds`.
pub fn store_wrap(mem: &mut Vec<u8>, address: u64, offset: u64, value: u64, width: StoreWidth) -> (r:
    Result<(), TrapCode>)
    ensures
        address + offset + width.spec_len() <= old(mem).len() ==> (r == Ok::<(), TrapCode>(())
            && final(mem)@ == spec_store_bytes(
            old(mem)@,
            address + offset,
            value,
            width.spec_len(),
        )),
        address + offset + width.spec_len() > old(mem).len() ==> (r == Err::<(), TrapCode>(
            TrapCode::MemoryOutOfBounds,
        ) && *final(mem) == *old(mem)),
{
    let len_bytes: usize = width.len();
    if address > u64::MAX - offset {
        return Err(TrapCode::MemoryOutOfBounds);
    }
    let addr: u64 = address + offset;
    let mlen: usize = mem.len();
    if (mlen as u64) < (len_bytes as u64) || addr > (mlen as u64) - (len_bytes as u64) {
        return Err(TrapCode::MemoryOutOfBounds);
    }
    let base: usize = addr as usize;
    let mut k: usize = 0;
    while k < len_bytes
        invariant
            k <= len_bytes,
            base + len_bytes <= mem.len(),
            mem.len() == old(mem).len(),
            base == address + offset,
            len_bytes == width.spec_len(),
            mem@ == spec_store_bytes(old(mem)@, base as int, value, k as int),
        decreases len_bytes - k,
    {
        let shift: u32 = 8 * (k as u32);
        let b: u8 = (value >> shift) as u8;
        vec_write_byte(mem, base + k, b);
        proof {
            assert(mem@ =~= spec_store_bytes(old(mem)@, base as int, value, k + 1));
        }
        k = k + 1;
    }
    proof {
        assert(mem@ =~= spec_store_bytes(old(mem)@, base as int, value, width.spec_len()));
    }
    Ok(())
}

} // verus!
