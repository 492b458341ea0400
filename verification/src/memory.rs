//! The linear memory: a byte array in pages of 64 KiB, with bounds-checked
//! little-endian loads and stores.

use crate::error::WasmRuntimeError;
use crate::leb128::le_value;
use crate::types::WasmLimit;
use vstd::prelude::*;

verus! {

/// The number of bytes in one page of linear memory.
pub const WASM_PAGE_SIZE: usize = 0x1_0000;

/// The most pages that a memory may have.
pub const WASM_MAX_PAGES: u32 = 0x1_0000;

/// `v` without its `k` low-order bytes.
pub open spec fn le_shift(v: nat, k: nat) -> nat
    decreases k,
{
    if k == 0 {
        v
    } else {
        le_shift(v, (k - 1) as nat) / 256
    }
}

/// The `k`-th byte of `v`, counted from the low-order end.
pub open spec fn le_digit(v: nat, k: nat) -> u8 {
    (le_shift(v, k) % 256) as u8
}

/// The memory contents after storing the `n` low-order bytes of `v` at
/// `addr`, low-order byte first.
pub open spec fn store_le(data: Seq<u8>, addr: int, v: nat, n: nat) -> Seq<u8> {
    Seq::new(
        data.len(),
        |j: int|
            if addr <= j < addr + n {
                le_digit(v, (j - addr) as nat)
            } else {
                data[j]
            },
    )
}

/// Whether an access of `n` bytes at `addr` lies inside a memory of `len`
/// bytes.
pub open spec fn in_bounds(len: nat, addr: int, n: nat) -> bool {
    0 <= addr && addr + n <= len
}

/// A linear memory. Its contents are `data`; `limit` records the size limits
/// that the module declared.
pub struct WasmMemory {
    pub data: Vec<u8>,
    pub limit: WasmLimit,
}

impl View for WasmMemory {
    type V = Seq<u8>;

    open spec fn view(&self) -> Seq<u8> {
        self.data@
    }
}

impl WasmMemory {
    /// A zero-filled memory of `limit.min` pages, or `None` where that is more
    /// than a memory may have or than this machine can address.
    pub fn new(limit: WasmLimit) -> (r: Option<WasmMemory>)
        ensures
            r is Some <==> limit.min <= WASM_MAX_PAGES && limit.min * WASM_PAGE_SIZE <= usize::MAX,
            r matches Some(m) ==> m.limit == limit && m@ == Seq::new(
                (limit.min * WASM_PAGE_SIZE) as nat,
                |j: int| 0u8,
            ),
    {
        if limit.min > WASM_MAX_PAGES {
            return None;
        }
        let bytes: u64 = limit.min as u64 * WASM_PAGE_SIZE as u64;
        if bytes > usize::MAX as u64 {
            return None;
        }
        let data: Vec<u8> = vec![0u8; bytes as usize];
        assert(data@ =~= Seq::new((limit.min * WASM_PAGE_SIZE) as nat, |j: int| 0u8));
        Some(WasmMemory { data, limit })
    }

    /// The size limits that the module declared.
    pub fn limit(&self) -> (r: WasmLimit)
        ensures
            r == self.limit,
    {
        self.limit
    }

    /// The length of the memory in bytes.
    pub fn byte_length(&self) -> (r: usize)
        ensures
            r == self@.len(),
    {
        self.data.len()
    }

    /// The number of whole pages.
    pub fn size(&self) -> (r: usize)
        ensures
            r == self@.len() / (WASM_PAGE_SIZE as nat),
    {
        self.data.len() / WASM_PAGE_SIZE
    }

    /// Checks that `n` bytes at `offset` lie inside the memory and gives the
    /// offset as an index.
    fn check(&self, offset: u64, n: usize) -> (r: Result<usize, WasmRuntimeError>)
        requires
            n <= 8,
        ensures
            r is Ok <==> in_bounds(self@.len(), offset as int, n as nat),
            r matches Ok(p) ==> p == offset && p + n <= self@.len() && self@.len() <= usize::MAX,
            r matches Err(e) ==> e == WasmRuntimeError::OutOfBounds,
    {
        let len: usize = self.data.len();
        if len < n || offset > (len - n) as u64 {
            Err(WasmRuntimeError::OutOfBounds)
        } else {
            Ok(offset as usize)
        }
    }

    /// Borrows `len` bytes at `base`.
    pub fn read_bytes(&self, base: u64, len: u64) -> (r: Result<&[u8], WasmRuntimeError>)
        ensures
            base + len <= self@.len() ==> r is Ok && r->Ok_0@ == self@.subrange(
                base as int,
                base + len,
            ),
            base + len > self@.len() ==> r == Err::<&[u8], WasmRuntimeError>(
                WasmRuntimeError::OutOfBounds,
            ),
    {
        let total: usize = self.data.len();
        if base > total as u64 || len > total as u64 - base {
            return Err(WasmRuntimeError::OutOfBounds);
        }
        let from: usize = base as usize;
        let to: usize = from + len as usize;
        Ok(vstd::slice::slice_subrange(self.data.as_slice(), from, to))
    }

    /// Loads one byte. An address outside the memory traps `OutOfBounds`.
    pub fn read_u8(&self, offset: u64) -> (r: Result<u8, WasmRuntimeError>)
        ensures
            in_bounds(self@.len(), offset as int, 1) ==> r == Ok::<u8, WasmRuntimeError>(
                self@[offset as int],
            ),
            !in_bounds(self@.len(), offset as int, 1) ==> r == Err::<u8, WasmRuntimeError>(
                WasmRuntimeError::OutOfBounds,
            ),
    {
        let p: usize = self.check(offset, 1)?;
        Ok(self.data[p])
    }

    /// Loads two bytes, low-order byte first. An access that reaches outside
    /// the memory traps `OutOfBounds`.
    pub fn read_u16(&self, offset: u64) -> (r: Result<u16, WasmRuntimeError>)
        ensures
            in_bounds(self@.len(), offset as int, 2) ==> r == Ok::<u16, WasmRuntimeError>(
                le_value(self@, offset as int, 2) as u16,
            ),
            !in_bounds(self@.len(), offset as int, 2) ==> r == Err::<u16, WasmRuntimeError>(
                WasmRuntimeError::OutOfBounds,
            ),
    {
        let p: usize = self.check(offset, 2)?;
        let b0: u16 = self.data[p] as u16;
        let b1: u16 = self.data[p + 1] as u16;
        proof {
            reveal_with_fuel(le_value, 3);
        }
        Ok(b0 + 0x100 * b1)
    }

    /// Loads four bytes, low-order byte first. An access that reaches outside
    /// the memory traps `OutOfBounds`.
    pub fn read_u32(&self, offset: u64) -> (r: Result<u32, WasmRuntimeError>)
        ensures
            in_bounds(self@.len(), offset as int, 4) ==> r == Ok::<u32, WasmRuntimeError>(
                le_value(self@, offset as int, 4) as u32,
            ),
            !in_bounds(self@.len(), offset as int, 4) ==> r == Err::<u32, WasmRuntimeError>(
                WasmRuntimeError::OutOfBounds,
            ),
    {
        let p: usize = self.check(offset, 4)?;
        let b0: u32 = self.data[p] as u32;
        let b1: u32 = self.data[p + 1] as u32;
        let b2: u32 = self.data[p + 2] as u32;
        let b3: u32 = self.data[p + 3] as u32;
        proof {
            reveal_with_fuel(le_value, 5);
        }
        Ok(b0 + 0x100 * b1 + 0x1_0000 * b2 + 0x100_0000 * b3)
    }

    /// Loads eight bytes, low-order byte first. An access that reaches
    /// outside the memory traps `OutOfBounds`.
    pub fn read_u64(&self, offset: u64) -> (r: Result<u64, WasmRuntimeError>)
        ensures
            in_bounds(self@.len(), offset as int, 8) ==> r == Ok::<u64, WasmRuntimeError>(
                le_value(self@, offset as int, 8) as u64,
            ),
            !in_bounds(self@.len(), offset as int, 8) ==> r == Err::<u64, WasmRuntimeError>(
                WasmRuntimeError::OutOfBounds,
            ),
    {
        let p: usize = self.check(offset, 8)?;
        let b0: u64 = self.data[p] as u64;
        let b1: u64 = self.data[p + 1] as u64;
        let b2: u64 = self.data[p + 2] as u64;
        let b3: u64 = self.data[p + 3] as u64;
        let b4: u64 = self.data[p + 4] as u64;
        let b5: u64 = self.data[p + 5] as u64;
        let b6: u64 = self.data[p + 6] as u64;
        let b7: u64 = self.data[p + 7] as u64;
        proof {
            reveal_with_fuel(le_value, 9);
        }
        let lo: u64 = b0 + 0x100 * b1 + 0x1_0000 * b2 + 0x100_0000 * b3;
        let hi: u64 = b4 + 0x100 * b5 + 0x1_0000 * b6 + 0x100_0000 * b7;
        Ok(lo + 0x1_0000_0000 * hi)
    }

    /// Stores the `n` low-order bytes of `val` at `offset`, low-order byte
    /// first. An access that reaches outside the memory traps `OutOfBounds`
    /// and writes nothing.
    fn write_le(&mut self, offset: u64, val: u64, n: usize) -> (r: Result<(), WasmRuntimeError>)
        requires
            1 <= n <= 8,
        ensures
            final(self).limit == old(self).limit,
            in_bounds(old(self)@.len(), offset as int, n as nat) ==> r is Ok && final(self)@
                == store_le(old(self)@, offset as int, val as nat, n as nat),
            !in_bounds(old(self)@.len(), offset as int, n as nat) ==> r == Err::<
                (),
                WasmRuntimeError,
            >(WasmRuntimeError::OutOfBounds) && final(self)@ == old(self)@,
    {
        let p: usize = self.check(offset, n)?;
        let mut rest: u64 = val;
        let mut i: usize = 0;
        while i < n
            invariant
                i <= n <= 8,
                p + n <= self.data@.len() <= usize::MAX,
                self.data@.len() == old(self).data@.len(),
                self.limit == old(self).limit,
                rest == le_shift(val as nat, i as nat),
                forall|j: int|
                    0 <= j < self.data@.len() ==> self.data@[j] == if p <= j < p + i {
                        le_digit(val as nat, (j - p) as nat)
                    } else {
                        old(self).data@[j]
                    },
            decreases n - i,
        {
            self.data[p + i] = (rest % 256) as u8;
            rest = rest / 256;
            i = i + 1;
        }
        assert(self.data@ =~= store_le(old(self)@, offset as int, val as nat, n as nat));
        Ok(())
    }

    /// Stores one byte. An address outside the memory traps `OutOfBounds` and
    /// writes nothing.
    pub fn write_u8(&mut self, offset: u64, val: u8) -> (r: Result<(), WasmRuntimeError>)
        ensures
            final(self).limit == old(self).limit,
            in_bounds(old(self)@.len(), offset as int, 1) ==> r is Ok && final(self)@ == store_le(
                old(self)@,
                offset as int,
                val as nat,
                1,
            ),
            !in_bounds(old(self)@.len(), offset as int, 1) ==> r == Err::<(), WasmRuntimeError>(
                WasmRuntimeError::OutOfBounds,
            ) && final(self)@ == old(self)@,
    {
        self.write_le(offset, val as u64, 1)
    }

    /// Stores two bytes, low-order byte first. An access that reaches outside
    /// the memory traps `OutOfBounds` and writes nothing.
    pub fn write_u16(&mut self, offset: u64, val: u16) -> (r: Result<(), WasmRuntimeError>)
        ensures
            final(self).limit == old(self).limit,
            in_bounds(old(self)@.len(), offset as int, 2) ==> r is Ok && final(self)@ == store_le(
                old(self)@,
                offset as int,
                val as nat,
                2,
            ),
            !in_bounds(old(self)@.len(), offset as int, 2) ==> r == Err::<(), WasmRuntimeError>(
                WasmRuntimeError::OutOfBounds,
            ) && final(self)@ == old(self)@,
    {
        self.write_le(offset, val as u64, 2)
    }

    /// Stores four bytes, low-order byte first. An access that reaches
    /// outside the memory traps `OutOfBounds` and writes nothing.
    pub fn write_u32(&mut self, offset: u64, val: u32) -> (r: Result<(), WasmRuntimeError>)
        ensures
            final(self).limit == old(self).limit,
            in_bounds(old(self)@.len(), offset as int, 4) ==> r is Ok && final(self)@ == store_le(
                old(self)@,
                offset as int,
                val as nat,
                4,
            ),
            !in_bounds(old(self)@.len(), offset as int, 4) ==> r == Err::<(), WasmRuntimeError>(
                WasmRuntimeError::OutOfBounds,
            ) && final(self)@ == old(self)@,
    {
        self.write_le(offset, val as u64, 4)
    }

    /// Stores eight bytes, low-order byte first. An access that reaches
    /// outside the memory traps `OutOfBounds` and writes nothing.
    pub fn write_u64(&mut self, offset: u64, val: u64) -> (r: Result<(), WasmRuntimeError>)
        ensures
            final(self).limit == old(self).limit,
            in_bounds(old(self)@.len(), offset as int, 8) ==> r is Ok && final(self)@ == store_le(
                old(self)@,
                offset as int,
                val as nat,
                8,
            ),
            !in_bounds(old(self)@.len(), offset as int, 8) ==> r == Err::<(), WasmRuntimeError>(
                WasmRuntimeError::OutOfBounds,
            ) && final(self)@ == old(self)@,
    {
        self.write_le(offset, val, 8)
    }
}

} // verus!
