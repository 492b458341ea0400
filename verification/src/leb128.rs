//! A cursor over a byte slice that reads fixed-width little-endian integers,
//! LEB128 integers, byte runs and UTF-8 strings.

use crate::error::WasmDecodeError;
use vstd::arithmetic::div_mod::{lemma_add_mod_noop, lemma_mul_mod_noop_right};
use vstd::prelude::*;
use vstd::utf8::valid_utf8;
use vstd::string::StringSliceAdditionalSpecFns;

verus! {

/// The most continuation bytes that one LEB128 integer may have.
pub const LEB128_MAX_CONTINUATION: usize = 10;

/// The value of `n` bytes from `pos` on, read as a little-endian number.
pub open spec fn le_value(bytes: Seq<u8>, pos: int, n: nat) -> nat
    decreases n,
{
    if n == 0 {
        0
    } else {
        bytes[pos] as nat + 256 * le_value(bytes, pos + 1, (n - 1) as nat)
    }
}

/// Where the LEB128 integer that starts at `pos` ends: the position of its
/// first byte without the continuation bit. `seen` counts the continuation
/// bytes before `pos`. The scan fails with `UnexpectedEof` if the bytes end
/// first, and with `UnexpectedToken` at a continuation byte beyond the
/// limit.
pub open spec fn leb_last(bytes: Seq<u8>, pos: int, seen: nat) -> Result<int, WasmDecodeError>
    decreases bytes.len() - pos,
{
    if pos < 0 || pos >= bytes.len() {
        Err(WasmDecodeError::UnexpectedEof)
    } else if bytes[pos] < 0x80 {
        Ok(pos)
    } else if seen >= LEB128_MAX_CONTINUATION {
        Err(WasmDecodeError::UnexpectedToken)
    } else {
        leb_last(bytes, pos + 1, seen + 1)
    }
}

/// The unsigned number that the bytes from `first` to `last` spell, seven
/// bits per byte, low-order group first.
pub open spec fn leb_unsigned(bytes: Seq<u8>, first: int, last: int) -> nat
    decreases last - first + 1,
{
    if first > last {
        0
    } else {
        (bytes[first] % 128) as nat + 128 * leb_unsigned(bytes, first + 1, last)
    }
}

/// The signed number that the bytes from `first` to `last` spell: as
/// `leb_unsigned`, but the seven bits of the last byte are a signed digit,
/// negative where its bit 6 is set.
pub open spec fn leb_signed(bytes: Seq<u8>, first: int, last: int) -> int
    decreases last - first,
{
    if first >= last {
        let d = bytes[last] % 128;
        if d >= 64 {
            d - 128
        } else {
            d as int
        }
    } else {
        (bytes[first] % 128) as int + 128 * leb_signed(bytes, first + 1, last)
    }
}

/// The 64-bit two's-complement integer that is congruent to `v` modulo 2^64.
pub open spec fn wrap_to_i64(v: int) -> i64 {
    let m = v % 0x1_0000_0000_0000_0000;
    if m >= 0x8000_0000_0000_0000 {
        (m - 0x1_0000_0000_0000_0000) as i64
    } else {
        m as i64
    }
}

/// What `read_uint` yields at `pos`: the value, reduced modulo 2^64, and the
/// position after the integer.
pub open spec fn spec_read_uint(bytes: Seq<u8>, pos: int) -> Result<(u64, int), WasmDecodeError> {
    match leb_last(bytes, pos, 0) {
        Err(e) => Err(e),
        Ok(last) => Ok(((leb_unsigned(bytes, pos, last) % 0x1_0000_0000_0000_0000) as u64, last + 1)),
    }
}

/// What `read_sint` yields at `pos`: the value, wrapped to 64 bits, and the
/// position after the integer.
pub open spec fn spec_read_sint(bytes: Seq<u8>, pos: int) -> Result<(i64, int), WasmDecodeError> {
    match leb_last(bytes, pos, 0) {
        Err(e) => Err(e),
        Ok(last) => Ok((wrap_to_i64(leb_signed(bytes, pos, last)), last + 1)),
    }
}

/// What `read_bytes(n)` yields at `pos`.
pub open spec fn spec_read_bytes(bytes: Seq<u8>, pos: int, n: int) -> Result<(Seq<u8>, int), WasmDecodeError> {
    if 0 <= pos && 0 <= n && pos + n <= bytes.len() {
        Ok((bytes.subrange(pos, pos + n), pos + n))
    } else {
        Err(WasmDecodeError::UnexpectedEof)
    }
}

/// What `read_string` yields at `pos`: the bytes of the string and the
/// position after it. The bytes are those that follow the length, when they
/// are well-formed UTF-8; otherwise the read fails with `UnexpectedToken`.
pub open spec fn spec_read_string(bytes: Seq<u8>, pos: int) -> Result<(Seq<u8>, int), WasmDecodeError> {
    match spec_read_uint(bytes, pos) {
        Err(e) => Err(e),
        Ok((len, p)) => match spec_read_bytes(bytes, p, len as int) {
            Err(e) => Err(e),
            Ok((run, q)) => if valid_utf8(run) {
                Ok((run, q))
            } else {
                Err(WasmDecodeError::UnexpectedToken)
            },
        },
    }
}

/// `core::str::from_utf8`: it accepts exactly the well-formed UTF-8 byte
/// runs, and the string it gives has the bytes it was given.
#[verifier::external_body]
fn utf8_str<'a>(bytes: &'a [u8]) -> (r: Option<&'a str>)
    ensures
        r.is_some() <==> valid_utf8(bytes@),
        r matches Some(s) ==> s.spec_bytes() == bytes@,
{
    match core::str::from_utf8(bytes) {
        Ok(s) => Some(s),
        Err(_) => None,
    }
}

/// A read cursor over a borrowed byte slice. Every read either succeeds and
/// moves the cursor past what it read, or fails and leaves the cursor where
/// it was.
pub struct Leb128Stream<'a> {
    pub blob: &'a [u8],
    pub position: usize,
}

impl<'a> Leb128Stream<'a> {
    /// A cursor at the start of `slice`.
    pub fn from_slice(slice: &'a [u8]) -> (r: Self)
        ensures
            r.blob@ == slice@,
            r.position == 0,
    {
        Leb128Stream { blob: slice, position: 0 }
    }

    /// Moves the cursor back to the start.
    pub fn reset(&mut self)
        ensures
            final(self).blob@ == old(self).blob@,
            final(self).position == 0,
    {
        self.position = 0;
    }

    /// The current position.
    pub fn fetch_position(&self) -> (r: usize)
        ensures
            r == self.position,
    {
        self.position
    }

    /// Moves the cursor to `val`. A position past the end makes every later
    /// read fail.
    pub fn set_position(&mut self, val: usize)
        ensures
            final(self).blob@ == old(self).blob@,
            final(self).position == val,
    {
        self.position = val;
    }

    /// Whether nothing is left to read.
    pub fn is_eof(&self) -> (r: bool)
        ensures
            r == (self.position >= self.blob@.len()),
    {
        self.position >= self.blob.len()
    }

    /// Reads one byte.
    pub fn read_u8(&mut self) -> (r: Result<u8, WasmDecodeError>)
        ensures
            final(self).blob@ == old(self).blob@,
            old(self).position < old(self).blob@.len() ==> r == Ok::<u8, WasmDecodeError>(
                old(self).blob@[old(self).position as int],
            ) && final(self).position == old(self).position + 1,
            old(self).position >= old(self).blob@.len() ==> r == Err::<u8, WasmDecodeError>(
                WasmDecodeError::UnexpectedEof,
            ) && final(self).position == old(self).position,
    {
        if self.position < self.blob.len() {
            let b: u8 = self.blob[self.position];
            self.position = self.position + 1;
            Ok(b)
        } else {
            Err(WasmDecodeError::UnexpectedEof)
        }
    }

    /// Reads a 32-bit integer, low-order byte first.
    pub fn read_u32_le(&mut self) -> (r: Result<u32, WasmDecodeError>)
        ensures
            final(self).blob@ == old(self).blob@,
            old(self).position + 4 <= old(self).blob@.len() ==> r == Ok::<u32, WasmDecodeError>(
                le_value(old(self).blob@, old(self).position as int, 4) as u32,
            ) && final(self).position == old(self).position + 4,
            old(self).position + 4 > old(self).blob@.len() ==> r == Err::<u32, WasmDecodeError>(
                WasmDecodeError::UnexpectedEof,
            ) && final(self).position == old(self).position,
    {
        let len: usize = self.blob.len();
        let p: usize = self.position;
        if p > len || len - p < 4 {
            return Err(WasmDecodeError::UnexpectedEof);
        }
        let b0: u32 = self.blob[p] as u32;
        let b1: u32 = self.blob[p + 1] as u32;
        let b2: u32 = self.blob[p + 2] as u32;
        let b3: u32 = self.blob[p + 3] as u32;
        proof {
            reveal_with_fuel(le_value, 5);
        }
        self.position = p + 4;
        Ok(b0 + 0x100 * b1 + 0x1_0000 * b2 + 0x100_0000 * b3)
    }

    /// Reads a 64-bit integer, low-order byte first.
    pub fn read_u64_le(&mut self) -> (r: Result<u64, WasmDecodeError>)
        ensures
            final(self).blob@ == old(self).blob@,
            old(self).position + 8 <= old(self).blob@.len() ==> r == Ok::<u64, WasmDecodeError>(
                le_value(old(self).blob@, old(self).position as int, 8) as u64,
            ) && final(self).position == old(self).position + 8,
            old(self).position + 8 > old(self).blob@.len() ==> r == Err::<u64, WasmDecodeError>(
                WasmDecodeError::UnexpectedEof,
            ) && final(self).position == old(self).position,
    {
        let len: usize = self.blob.len();
        let p: usize = self.position;
        if p > len || len - p < 8 {
            return Err(WasmDecodeError::UnexpectedEof);
        }
        let b0: u64 = self.blob[p] as u64;
        let b1: u64 = self.blob[p + 1] as u64;
        let b2: u64 = self.blob[p + 2] as u64;
        let b3: u64 = self.blob[p + 3] as u64;
        let b4: u64 = self.blob[p + 4] as u64;
        let b5: u64 = self.blob[p + 5] as u64;
        let b6: u64 = self.blob[p + 6] as u64;
        let b7: u64 = self.blob[p + 7] as u64;
        proof {
            reveal_with_fuel(le_value, 9);
        }
        let lo: u64 = b0 + 0x100 * b1 + 0x1_0000 * b2 + 0x100_0000 * b3;
        let hi: u64 = b4 + 0x100 * b5 + 0x1_0000 * b6 + 0x100_0000 * b7;
        let acc: u64 = lo + 0x1_0000_0000 * hi;
        self.position = p + 8;
        Ok(acc)
    }

    /// Finds the last byte of the LEB128 integer at the cursor.
    fn scan_leb(&self) -> (r: Result<usize, WasmDecodeError>)
        ensures
            r matches Ok(last) ==> leb_last(self.blob@, self.position as int, 0) == Ok::<
                int,
                WasmDecodeError,
            >(last as int) && self.position <= last < self.blob@.len() && last - self.position
                <= LEB128_MAX_CONTINUATION,
            r matches Err(e) ==> leb_last(self.blob@, self.position as int, 0) == Err::<
                int,
                WasmDecodeError,
            >(e),
    {
        let len: usize = self.blob.len();
        let mut end: usize = self.position;
        let mut seen: usize = 0;
        loop
            invariant
                len == self.blob@.len(),
                self.position <= end,
                end - self.position == seen,
                seen <= LEB128_MAX_CONTINUATION,
                leb_last(self.blob@, self.position as int, 0) == leb_last(
                    self.blob@,
                    end as int,
                    seen as nat,
                ),
            decreases LEB128_MAX_CONTINUATION - seen,
        {
            if end >= len {
                return Err(WasmDecodeError::UnexpectedEof);
            }
            let b: u8 = self.blob[end];
            if b < 0x80 {
                return Ok(end);
            }
            if seen >= LEB128_MAX_CONTINUATION {
                return Err(WasmDecodeError::UnexpectedToken);
            }
            seen = seen + 1;
            end = end + 1;
        }
    }

    /// Reads an unsigned LEB128 integer: seven bits per byte, low-order
    /// group first, the high bit of a byte saying that another byte follows.
    /// Bits beyond the 64th are dropped.
    pub fn read_uint(&mut self) -> (r: Result<u64, WasmDecodeError>)
        ensures
            final(self).blob@ == old(self).blob@,
            match spec_read_uint(old(self).blob@, old(self).position as int) {
                Ok((v, next)) => r == Ok::<u64, WasmDecodeError>(v) && final(self).position == next
                    && old(self).position < next <= old(self).blob@.len(),
                Err(e) => r == Err::<u64, WasmDecodeError>(e) && final(self).position == old(self).position,
            },
    {
        let last: usize = match self.scan_leb() {
            Ok(last) => last,
            Err(e) => { return Err(e); },
        };
        let first: usize = self.position;
        let len: usize = self.blob.len();
        let mut acc: u64 = 0;
        let mut i: usize = last + 1;
        while i > first
            invariant
                first <= i <= last + 1,
                last < self.blob@.len(),
                acc == leb_unsigned(self.blob@, i as int, last as int) % 0x1_0000_0000_0000_0000,
            decreases i,
        {
            i = i - 1;
            let d: u64 = (self.blob[i] % 128) as u64;
            proof {
                let rest = leb_unsigned(self.blob@, i + 1, last as int) as int;
                lemma_mul_mod_noop_right(128, rest, 0x1_0000_0000_0000_0000);
                lemma_add_mod_noop(d as int, 128 * rest, 0x1_0000_0000_0000_0000);
                lemma_add_mod_noop(d as int, 128 * (acc as int), 0x1_0000_0000_0000_0000);
                assert(128 * (acc as int) == (acc as nat) * (128 as nat)) by (nonlinear_arith);
            }
            acc = acc.wrapping_mul(128).wrapping_add(d);
        }
        self.position = last + 1;
        Ok(acc)
    }

    /// Reads a signed LEB128 integer: as the unsigned form, with the sign
    /// taken from bit 6 of the last byte. The value is wrapped to 64 bits.
    pub fn read_sint(&mut self) -> (r: Result<i64, WasmDecodeError>)
        ensures
            final(self).blob@ == old(self).blob@,
            match spec_read_sint(old(self).blob@, old(self).position as int) {
                Ok((v, next)) => r == Ok::<i64, WasmDecodeError>(v) && final(self).position == next
                    && old(self).position < next <= old(self).blob@.len(),
                Err(e) => r == Err::<i64, WasmDecodeError>(e) && final(self).position == old(self).position,
            },
    {
        let last: usize = match self.scan_leb() {
            Ok(last) => last,
            Err(e) => { return Err(e); },
        };
        let first: usize = self.position;
        let top: u64 = (self.blob[last] % 128) as u64;
        let mut acc: u64 = if top >= 64 {
            0xFFFF_FFFF_FFFF_FF80 + top
        } else {
            top
        };
        let mut i: usize = last;
        while i > first
            invariant
                first <= i <= last,
                last < self.blob@.len(),
                acc == leb_signed(self.blob@, i as int, last as int) % 0x1_0000_0000_0000_0000,
            decreases i,
        {
            i = i - 1;
            let d: u64 = (self.blob[i] % 128) as u64;
            proof {
                let rest = leb_signed(self.blob@, i + 1, last as int);
                lemma_mul_mod_noop_right(128, rest, 0x1_0000_0000_0000_0000);
                lemma_add_mod_noop(d as int, 128 * rest, 0x1_0000_0000_0000_0000);
                lemma_add_mod_noop(d as int, 128 * (acc as int), 0x1_0000_0000_0000_0000);
                assert(128 * (acc as int) == (acc as nat) * (128 as nat)) by (nonlinear_arith);
            }
            acc = acc.wrapping_mul(128).wrapping_add(d);
        }
        assert(acc as i64 == if acc >= 0x8000_0000_0000_0000 {
            acc - 0x1_0000_0000_0000_0000
        } else {
            acc as int
        }) by (bit_vector);
        self.position = last + 1;
        Ok(acc as i64)
    }

    /// Borrows the next `n` bytes and moves past them.
    pub fn read_bytes(&mut self, n: usize) -> (r: Result<&'a [u8], WasmDecodeError>)
        ensures
            final(self).blob@ == old(self).blob@,
            match spec_read_bytes(old(self).blob@, old(self).position as int, n as int) {
                Ok((run, next)) => r is Ok && r->Ok_0@ == run && final(self).position == next,
                Err(e) => r == Err::<&[u8], WasmDecodeError>(e) && final(self).position == old(self).position,
            },
    {
        let len: usize = self.blob.len();
        let p: usize = self.position;
        if p > len || len - p < n {
            return Err(WasmDecodeError::UnexpectedEof);
        }
        let run: &'a [u8] = vstd::slice::slice_subrange(self.blob, p, p + n);
        self.position = p + n;
        Ok(run)
    }

    /// Reads a string: an unsigned LEB128 length, then that many bytes of
    /// UTF-8. Bytes that are not well-formed UTF-8 are an `UnexpectedToken`.
    pub fn read_string(&mut self) -> (r: Result<&'a str, WasmDecodeError>)
        ensures
            final(self).blob@ == old(self).blob@,
            match spec_read_string(old(self).blob@, old(self).position as int) {
                Ok((run, next)) => r is Ok && r->Ok_0.spec_bytes() == run && final(self).position
                    == next,
                Err(e) => r == Err::<&str, WasmDecodeError>(e) && final(self).position == old(self).position,
            },
    {
        let start: usize = self.position;
        let total: usize = self.blob.len();
        let len: u64 = match self.read_uint() {
            Ok(v) => v,
            Err(e) => { return Err(e); },
        };
        if len > usize::MAX as u64 {
            self.position = start;
            return Err(WasmDecodeError::UnexpectedEof);
        }
        let run: &'a [u8] = match self.read_bytes(len as usize) {
            Ok(run) => run,
            Err(e) => {
                self.position = start;
                return Err(e);
            },
        };
        match utf8_str(run) {
            Some(s) => Ok(s),
            None => {
                self.position = start;
                Err(WasmDecodeError::UnexpectedToken)
            },
        }
    }
}

} // verus!
