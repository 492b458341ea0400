//! The integer operators of the instruction set, as functions on 32-bit and
//! 64-bit integers. Sums, differences and products wrap; quotients truncate
//! toward zero and trap on a zero divisor; shifts and rotations take their
//! count modulo the width.

use crate::error::WasmRuntimeError;
use crate::opcode::WasmOpcode;
use crate::stack::WasmStackValue;
use vstd::prelude::*;
use vstd::std_specs::bits::{
    u32_leading_zeros, u32_trailing_zeros, u64_leading_zeros, u64_trailing_zeros,
};

verus! {

/// The quotient of `a` by `b`, rounded toward zero. Meaningful for `b != 0`.
pub open spec fn trunc_div(a: int, b: int) -> int {
    if a >= 0 && b > 0 {
        a / b
    } else if a >= 0 {
        -(a / (-b))
    } else if b > 0 {
        -((-a) / b)
    } else {
        (-a) / (-b)
    }
}

/// The remainder that goes with `trunc_div`: it has the sign of `a`.
/// Meaningful for `b != 0`.
pub open spec fn trunc_rem(a: int, b: int) -> int {
    let m = if b < 0 {
        -b
    } else {
        b
    };
    if a >= 0 {
        a % m
    } else {
        -((-a) % m)
    }
}

/// The number of one bits in `x`.
pub open spec fn popcount(x: u64) -> nat
    decreases x,
{
    if x == 0 {
        0
    } else {
        (x % 2) as nat + popcount(x / 2)
    }
}

/// The number that the low `bits` bits of `v` spell when the highest of them
/// is a sign: `v` is below 2^bits, `half` is 2^(bits-1).
pub open spec fn sign_extend(v: int, half: int) -> int {
    if v >= half {
        v - 2 * half
    } else {
        v
    }
}

/// `i32.add`: the sum modulo 2^32.
pub open spec fn spec_i32_add(a: u32, b: u32) -> u32 {
    ((a + b) % 0x1_0000_0000) as u32
}

/// `i32.sub`: the difference modulo 2^32.
pub open spec fn spec_i32_sub(a: u32, b: u32) -> u32 {
    ((a - b) % 0x1_0000_0000) as u32
}

/// `i32.mul`: the product modulo 2^32.
pub open spec fn spec_i32_mul(a: u32, b: u32) -> u32 {
    ((a * b) % 0x1_0000_0000) as u32
}

/// `i32.div_s`: the quotient rounded toward zero, or the trap.
pub open spec fn spec_i32_div_s(a: i32, b: i32) -> Result<i32, WasmRuntimeError> {
    if b == 0 {
        Err(WasmRuntimeError::DivideByZero)
    } else if a == i32::MIN && b == -1 {
        Err(WasmRuntimeError::IntegerOverflow)
    } else {
        Ok(trunc_div(a as int, b as int) as i32)
    }
}

/// `i32.div_u`: the unsigned quotient, or the trap.
pub open spec fn spec_i32_div_u(a: u32, b: u32) -> Result<u32, WasmRuntimeError> {
    if b == 0 {
        Err(WasmRuntimeError::DivideByZero)
    } else {
        Ok(a / b)
    }
}

/// `i32.rem_s`: the remainder with the sign of the dividend, or the trap.
pub open spec fn spec_i32_rem_s(a: i32, b: i32) -> Result<i32, WasmRuntimeError> {
    if b == 0 {
        Err(WasmRuntimeError::DivideByZero)
    } else {
        Ok(trunc_rem(a as int, b as int) as i32)
    }
}

/// `i32.rem_u`: the unsigned remainder, or the trap.
pub open spec fn spec_i32_rem_u(a: u32, b: u32) -> Result<u32, WasmRuntimeError> {
    if b == 0 {
        Err(WasmRuntimeError::DivideByZero)
    } else {
        Ok(a % b)
    }
}

/// `i32.shl`: shifted left by the count modulo 32.
pub open spec fn spec_i32_shl(a: u32, k: u32) -> u32 {
    a << (k % 32)
}

/// `i32.shr_s`: shifted right by the count modulo 32, the sign filling in.
pub open spec fn spec_i32_shr_s(a: i32, k: u32) -> i32 {
    a >> (k % 32)
}

/// `i32.shr_u`: shifted right by the count modulo 32, zeros filling in.
pub open spec fn spec_i32_shr_u(a: u32, k: u32) -> u32 {
    a >> (k % 32)
}

/// `i32.rotl`: rotated left by the count modulo 32.
pub open spec fn spec_i32_rotl(a: u32, k: u32) -> u32 {
    let s = k % 32;
    if s == 0 {
        a
    } else {
        (a << s) | (a >> ((32 - s) as u32))
    }
}

/// `i32.rotr`: rotated right by the count modulo 32.
pub open spec fn spec_i32_rotr(a: u32, k: u32) -> u32 {
    let s = k % 32;
    if s == 0 {
        a
    } else {
        (a >> s) | (a << ((32 - s) as u32))
    }
}

/// `i32.extend8_s`: the low 8 bits, sign-extended.
pub open spec fn spec_i32_extend8_s(x: i32) -> i32 {
    (x as i8) as i32
}

/// `i32.extend16_s`: the low 16 bits, sign-extended.
pub open spec fn spec_i32_extend16_s(x: i32) -> i32 {
    (x as i16) as i32
}

/// `i32.wrap_i64`: the low 32 bits.
pub open spec fn spec_i32_wrap_i64(x: u64) -> u32 {
    x as u32
}

/// `i64.add`: the sum modulo 2^64.
pub open spec fn spec_i64_add(a: u64, b: u64) -> u64 {
    ((a + b) % 0x1_0000_0000_0000_0000) as u64
}

/// `i64.sub`: the difference modulo 2^64.
pub open spec fn spec_i64_sub(a: u64, b: u64) -> u64 {
    ((a - b) % 0x1_0000_0000_0000_0000) as u64
}

/// `i64.mul`: the product modulo 2^64.
pub open spec fn spec_i64_mul(a: u64, b: u64) -> u64 {
    ((a * b) % 0x1_0000_0000_0000_0000) as u64
}

/// `i64.div_s`: the quotient rounded toward zero, or the trap.
pub open spec fn spec_i64_div_s(a: i64, b: i64) -> Result<i64, WasmRuntimeError> {
    if b == 0 {
        Err(WasmRuntimeError::DivideByZero)
    } else if a == i64::MIN && b == -1 {
        Err(WasmRuntimeError::IntegerOverflow)
    } else {
        Ok(trunc_div(a as int, b as int) as i64)
    }
}

/// `i64.div_u`: the unsigned quotient, or the trap.
pub open spec fn spec_i64_div_u(a: u64, b: u64) -> Result<u64, WasmRuntimeError> {
    if b == 0 {
        Err(WasmRuntimeError::DivideByZero)
    } else {
        Ok(a / b)
    }
}

/// `i64.rem_s`: the remainder with the sign of the dividend, or the trap.
pub open spec fn spec_i64_rem_s(a: i64, b: i64) -> Result<i64, WasmRuntimeError> {
    if b == 0 {
        Err(WasmRuntimeError::DivideByZero)
    } else {
        Ok(trunc_rem(a as int, b as int) as i64)
    }
}

/// `i64.rem_u`: the unsigned remainder, or the trap.
pub open spec fn spec_i64_rem_u(a: u64, b: u64) -> Result<u64, WasmRuntimeError> {
    if b == 0 {
        Err(WasmRuntimeError::DivideByZero)
    } else {
        Ok(a % b)
    }
}

/// `i64.shl`: shifted left by the count modulo 64.
pub open spec fn spec_i64_shl(a: u64, k: u64) -> u64 {
    a << (k % 64)
}

/// `i64.shr_s`: shifted right by the count modulo 64, the sign filling in.
pub open spec fn spec_i64_shr_s(a: i64, k: u64) -> i64 {
    a >> (k % 64)
}

/// `i64.shr_u`: shifted right by the count modulo 64, zeros filling in.
pub open spec fn spec_i64_shr_u(a: u64, k: u64) -> u64 {
    a >> (k % 64)
}

/// `i64.rotl`: rotated left by the count modulo 64.
pub open spec fn spec_i64_rotl(a: u64, k: u64) -> u64 {
    let s = k % 64;
    if s == 0 {
        a
    } else {
        (a << s) | (a >> ((64 - s) as u64))
    }
}

/// `i64.rotr`: rotated right by the count modulo 64.
pub open spec fn spec_i64_rotr(a: u64, k: u64) -> u64 {
    let s = k % 64;
    if s == 0 {
        a
    } else {
        (a >> s) | (a << ((64 - s) as u64))
    }
}

/// `i64.extend8_s`: the low 8 bits, sign-extended.
pub open spec fn spec_i64_extend8_s(x: i64) -> i64 {
    (x as i8) as i64
}

/// `i64.extend16_s`: the low 16 bits, sign-extended.
pub open spec fn spec_i64_extend16_s(x: i64) -> i64 {
    (x as i16) as i64
}

/// `i64.extend32_s`: the low 32 bits, sign-extended.
pub open spec fn spec_i64_extend32_s(x: i64) -> i64 {
    (x as i32) as i64
}

/// `i32.add`: the sum modulo 2^32.
pub fn i32_add(a: u32, b: u32) -> (r: u32)
    ensures
        r == spec_i32_add(a, b),
        r == (a + b) % 0x1_0000_0000,
{
    a.wrapping_add(b)
}

/// `i32.sub`: the difference modulo 2^32.
pub fn i32_sub(a: u32, b: u32) -> (r: u32)
    ensures
        r == spec_i32_sub(a, b),
        r == (a - b) % 0x1_0000_0000,
{
    a.wrapping_sub(b)
}

/// `i32.mul`: the product modulo 2^32.
pub fn i32_mul(a: u32, b: u32) -> (r: u32)
    ensures
        r == spec_i32_mul(a, b),
        r == (a * b) % 0x1_0000_0000,
{
    a.wrapping_mul(b)
}

/// `i32.div_s`: the quotient rounded toward zero. A zero divisor traps
/// `DivideByZero`; the smallest integer divided by -1 traps `IntegerOverflow`.
pub fn i32_div_s(a: i32, b: i32) -> (r: Result<i32, WasmRuntimeError>)
    ensures
        r == spec_i32_div_s(a, b),
        b == 0 ==> r == Err::<i32, WasmRuntimeError>(WasmRuntimeError::DivideByZero),
        a == i32::MIN && b == -1 ==> r == Err::<i32, WasmRuntimeError>(
            WasmRuntimeError::IntegerOverflow,
        ),
        r is Ok <==> b != 0 && !(a == i32::MIN && b == -1),
{
    if b == 0 {
        Err(WasmRuntimeError::DivideByZero)
    } else if a == i32::MIN && b == -1 {
        Err(WasmRuntimeError::IntegerOverflow)
    } else {
        let x: i64 = a as i64;
        let y: i64 = b as i64;
        let ux: i64 = if x < 0 { -x } else { x };
        let uy: i64 = if y < 0 { -y } else { y };
        let q: i64 = ux / uy;
        proof {
            vstd::arithmetic::div_mod::lemma_div_nonincreasing(ux as int, uy as int);
            vstd::arithmetic::div_mod::lemma_div_pos_is_pos(ux as int, uy as int);
            if uy >= 2 {
                vstd::arithmetic::div_mod::lemma_div_is_ordered_by_denominator(ux as int, 2, uy as int);
            }
        }
        let s: i64 = if (x < 0) != (y < 0) { -q } else { q };
        Ok(s as i32)
    }
}

/// `i32.div_u`: the unsigned quotient. A zero divisor traps `DivideByZero`.
pub fn i32_div_u(a: u32, b: u32) -> (r: Result<u32, WasmRuntimeError>)
    ensures
        r == spec_i32_div_u(a, b),
{
    if b == 0 {
        Err(WasmRuntimeError::DivideByZero)
    } else {
        Ok(a / b)
    }
}

/// `i32.rem_s`: the remainder of the truncating division; it has the sign of
/// the dividend. A zero divisor traps `DivideByZero`.
pub fn i32_rem_s(a: i32, b: i32) -> (r: Result<i32, WasmRuntimeError>)
    ensures
        r == spec_i32_rem_s(a, b),
{
    if b == 0 {
        Err(WasmRuntimeError::DivideByZero)
    } else {
        let x: i64 = a as i64;
        let y: i64 = b as i64;
        let ux: i64 = if x < 0 { -x } else { x };
        let uy: i64 = if y < 0 { -y } else { y };
        let m: i64 = ux % uy;
        let s: i64 = if x < 0 { -m } else { m };
        Ok(s as i32)
    }
}

/// `i32.rem_u`: the unsigned remainder. A zero divisor traps `DivideByZero`.
pub fn i32_rem_u(a: u32, b: u32) -> (r: Result<u32, WasmRuntimeError>)
    ensures
        r == spec_i32_rem_u(a, b),
{
    if b == 0 {
        Err(WasmRuntimeError::DivideByZero)
    } else {
        Ok(a % b)
    }
}

/// `i32.shl`: shift left by the count modulo 32.
pub fn i32_shl(a: u32, k: u32) -> (r: u32)
    ensures
        r == spec_i32_shl(a, k),
{
    a << (k % 32)
}

/// `i32.shr_s`: arithmetic shift right by the count modulo 32.
pub fn i32_shr_s(a: i32, k: u32) -> (r: i32)
    ensures
        r == spec_i32_shr_s(a, k),
        r == a >> (k % 32),
        (r < 0) == (a < 0),
{
    let s: u32 = k % 32;
    assert(((a >> s) < 0) == (a < 0)) by (bit_vector)
        requires
            s < 32,
    ;
    a >> s
}

/// `i32.shr_u`: logical shift right by the count modulo 32.
pub fn i32_shr_u(a: u32, k: u32) -> (r: u32)
    ensures
        r == spec_i32_shr_u(a, k),
{
    a >> (k % 32)
}

/// `i32.rotl`: rotate left by the count modulo 32.
pub fn i32_rotl(a: u32, k: u32) -> (r: u32)
    ensures
        r == spec_i32_rotl(a, k),
{
    let s: u32 = k % 32;
    if s == 0 {
        a
    } else {
        (a << s) | (a >> (32 - s))
    }
}

/// `i32.rotr`: rotate right by the count modulo 32.
pub fn i32_rotr(a: u32, k: u32) -> (r: u32)
    ensures
        r == spec_i32_rotr(a, k),
{
    let s: u32 = k % 32;
    if s == 0 {
        a
    } else {
        (a >> s) | (a << (32 - s))
    }
}

/// `i32.clz`: the number of leading zero bits.
pub fn i32_clz(a: u32) -> (r: u32)
    ensures
        r == u32_leading_zeros(a),
{
    a.leading_zeros()
}

/// `i32.ctz`: the number of trailing zero bits.
pub fn i32_ctz(a: u32) -> (r: u32)
    ensures
        r == u32_trailing_zeros(a),
{
    a.trailing_zeros()
}

/// `i32.popcnt`: the number of one bits.
pub fn i32_popcnt(a: u32) -> (r: u32)
    ensures
        r == popcount(a as u64),
        r <= 32,
{
    let n: u64 = i64_popcnt(a as u64);
    proof {
        vstd::arithmetic::power2::lemma2_to64();
        lemma_popcount_bound(a as u64, 32);
    }
    n as u32
}

/// `i32.extend8_s`: the low 8 bits, sign-extended.
pub fn i32_extend8_s(x: i32) -> (r: i32)
    ensures
        r == spec_i32_extend8_s(x),
        r == sign_extend((x & 0xff) as int, 0x80),
{
    assert((x as i8) as i32 == if (x & 0xff) >= 0x80 {
        (x & 0xff) - 2 * 0x80
    } else {
        (x & 0xff) as int
    }) by (bit_vector);
    (x as i8) as i32
}

/// `i32.extend16_s`: the low 16 bits, sign-extended.
pub fn i32_extend16_s(x: i32) -> (r: i32)
    ensures
        r == spec_i32_extend16_s(x),
        r == sign_extend((x & 0xffff) as int, 0x8000),
{
    assert((x as i16) as i32 == if (x & 0xffff) >= 0x8000 {
        (x & 0xffff) - 2 * 0x8000
    } else {
        (x & 0xffff) as int
    }) by (bit_vector);
    (x as i16) as i32
}

/// `i32.wrap_i64`: the low 32 bits.
pub fn i32_wrap_i64(x: u64) -> (r: u32)
    ensures
        r == spec_i32_wrap_i64(x),
        r == x & 0xffff_ffff,
{
    assert(x as u32 == x & 0xffff_ffff) by (bit_vector);
    x as u32
}

/// `i64.add`: the sum modulo 2^64.
pub fn i64_add(a: u64, b: u64) -> (r: u64)
    ensures
        r == spec_i64_add(a, b),
        r == (a + b) % 0x1_0000_0000_0000_0000,
{
    a.wrapping_add(b)
}

/// `i64.sub`: the difference modulo 2^64.
pub fn i64_sub(a: u64, b: u64) -> (r: u64)
    ensures
        r == spec_i64_sub(a, b),
        r == (a - b) % 0x1_0000_0000_0000_0000,
{
    a.wrapping_sub(b)
}

/// `i64.mul`: the product modulo 2^64.
pub fn i64_mul(a: u64, b: u64) -> (r: u64)
    ensures
        r == spec_i64_mul(a, b),
        r == (a * b) % 0x1_0000_0000_0000_0000,
{
    a.wrapping_mul(b)
}

/// `i64.div_s`: the quotient rounded toward zero. A zero divisor traps
/// `DivideByZero`; the smallest integer divided by -1 traps `IntegerOverflow`.
pub fn i64_div_s(a: i64, b: i64) -> (r: Result<i64, WasmRuntimeError>)
    ensures
        r == spec_i64_div_s(a, b),
        b == 0 ==> r == Err::<i64, WasmRuntimeError>(WasmRuntimeError::DivideByZero),
        a == i64::MIN && b == -1 ==> r == Err::<i64, WasmRuntimeError>(
            WasmRuntimeError::IntegerOverflow,
        ),
        r is Ok <==> b != 0 && !(a == i64::MIN && b == -1),
{
    if b == 0 {
        Err(WasmRuntimeError::DivideByZero)
    } else if a == i64::MIN && b == -1 {
        Err(WasmRuntimeError::IntegerOverflow)
    } else {
        let x: i128 = a as i128;
        let y: i128 = b as i128;
        let ux: i128 = if x < 0 { -x } else { x };
        let uy: i128 = if y < 0 { -y } else { y };
        let q: i128 = ux / uy;
        proof {
            vstd::arithmetic::div_mod::lemma_div_nonincreasing(ux as int, uy as int);
            vstd::arithmetic::div_mod::lemma_div_pos_is_pos(ux as int, uy as int);
            if uy >= 2 {
                vstd::arithmetic::div_mod::lemma_div_is_ordered_by_denominator(ux as int, 2, uy as int);
            }
        }
        let s: i128 = if (x < 0) != (y < 0) { -q } else { q };
        Ok(s as i64)
    }
}

/// `i64.div_u`: the unsigned quotient. A zero divisor traps `DivideByZero`.
pub fn i64_div_u(a: u64, b: u64) -> (r: Result<u64, WasmRuntimeError>)
    ensures
        r == spec_i64_div_u(a, b),
{
    if b == 0 {
        Err(WasmRuntimeError::DivideByZero)
    } else {
        Ok(a / b)
    }
}

/// `i64.rem_s`: the remainder of the truncating division; it has the sign of
/// the dividend. A zero divisor traps `DivideByZero`.
pub fn i64_rem_s(a: i64, b: i64) -> (r: Result<i64, WasmRuntimeError>)
    ensures
        r == spec_i64_rem_s(a, b),
{
    if b == 0 {
        Err(WasmRuntimeError::DivideByZero)
    } else {
        let x: i128 = a as i128;
        let y: i128 = b as i128;
        let ux: i128 = if x < 0 { -x } else { x };
        let uy: i128 = if y < 0 { -y } else { y };
        let m: i128 = ux % uy;
        let s: i128 = if x < 0 { -m } else { m };
        Ok(s as i64)
    }
}

/// `i64.rem_u`: the unsigned remainder. A zero divisor traps `DivideByZero`.
pub fn i64_rem_u(a: u64, b: u64) -> (r: Result<u64, WasmRuntimeError>)
    ensures
        r == spec_i64_rem_u(a, b),
{
    if b == 0 {
        Err(WasmRuntimeError::DivideByZero)
    } else {
        Ok(a % b)
    }
}

/// `i64.shl`: shift left by the count modulo 64.
pub fn i64_shl(a: u64, k: u64) -> (r: u64)
    ensures
        r == spec_i64_shl(a, k),
{
    a << (k % 64)
}

/// `i64.shr_s`: arithmetic shift right by the count modulo 64.
pub fn i64_shr_s(a: i64, k: u64) -> (r: i64)
    ensures
        r == spec_i64_shr_s(a, k),
        (r < 0) == (a < 0),
{
    let s: u64 = k % 64;
    assert(((a >> s) < 0) == (a < 0)) by (bit_vector)
        requires
            s < 64,
    ;
    a >> s
}

/// `i64.shr_u`: logical shift right by the count modulo 64.
pub fn i64_shr_u(a: u64, k: u64) -> (r: u64)
    ensures
        r == spec_i64_shr_u(a, k),
{
    a >> (k % 64)
}

/// `i64.rotl`: rotate left by the count modulo 64.
pub fn i64_rotl(a: u64, k: u64) -> (r: u64)
    ensures
        r == spec_i64_rotl(a, k),
{
    let s: u64 = k % 64;
    if s == 0 {
        a
    } else {
        (a << s) | (a >> (64 - s))
    }
}

/// `i64.rotr`: rotate right by the count modulo 64.
pub fn i64_rotr(a: u64, k: u64) -> (r: u64)
    ensures
        r == spec_i64_rotr(a, k),
{
    let s: u64 = k % 64;
    if s == 0 {
        a
    } else {
        (a >> s) | (a << (64 - s))
    }
}

/// `i64.clz`: the number of leading zero bits.
pub fn i64_clz(a: u64) -> (r: u64)
    ensures
        r == u64_leading_zeros(a),
{
    a.leading_zeros() as u64
}

/// `i64.ctz`: the number of trailing zero bits.
pub fn i64_ctz(a: u64) -> (r: u64)
    ensures
        r == u64_trailing_zeros(a),
{
    a.trailing_zeros() as u64
}

/// `i64.popcnt`: the number of one bits.
pub fn i64_popcnt(a: u64) -> (r: u64)
    ensures
        r == popcount(a),
        r <= 64,
{
    let mut v: u64 = a;
    let mut n: u64 = 0;
    proof {
        vstd::arithmetic::power2::lemma2_to64_rest();
        lemma_popcount_bound(a, 64);
    }
    while v != 0
        invariant
            n + popcount(v) == popcount(a),
            popcount(a) <= 64,
        decreases v,
    {
        n = n + v % 2;
        v = v / 2;
    }
    n
}

/// `i64.extend8_s`: the low 8 bits, sign-extended.
pub fn i64_extend8_s(x: i64) -> (r: i64)
    ensures
        r == spec_i64_extend8_s(x),
        r == sign_extend((x & 0xff) as int, 0x80),
{
    assert((x as i8) as i64 == if (x & 0xff) >= 0x80 {
        (x & 0xff) - 2 * 0x80
    } else {
        (x & 0xff) as int
    }) by (bit_vector);
    (x as i8) as i64
}

/// `i64.extend16_s`: the low 16 bits, sign-extended.
pub fn i64_extend16_s(x: i64) -> (r: i64)
    ensures
        r == spec_i64_extend16_s(x),
        r == sign_extend((x & 0xffff) as int, 0x8000),
{
    assert((x as i16) as i64 == if (x & 0xffff) >= 0x8000 {
        (x & 0xffff) - 2 * 0x8000
    } else {
        (x & 0xffff) as int
    }) by (bit_vector);
    (x as i16) as i64
}

/// `i64.extend32_s`: the low 32 bits, sign-extended.
pub fn i64_extend32_s(x: i64) -> (r: i64)
    ensures
        r == spec_i64_extend32_s(x),
        r == sign_extend((x & 0xffff_ffff) as int, 0x8000_0000),
{
    assert((x as i32) as i64 == if (x & 0xffff_ffff) >= 0x8000_0000 {
        (x & 0xffff_ffff) - 2 * 0x8000_0000
    } else {
        (x & 0xffff_ffff) as int
    }) by (bit_vector);
    (x as i32) as i64
}

/// A number below 2^bits has at most `bits` one bits.
pub proof fn lemma_popcount_bound(x: u64, bits: nat)
    requires
        bits <= 64,
        (x as int) < vstd::arithmetic::power2::pow2(bits),
    ensures
        popcount(x) <= bits,
    decreases bits,
{
    vstd::arithmetic::power2::lemma2_to64();
    vstd::arithmetic::power2::lemma2_to64_rest();
    if x == 0 {
    } else if bits == 0 {
    } else {
        vstd::arithmetic::power2::lemma_pow2_unfold(bits);
        lemma_popcount_bound(x / 2, (bits - 1) as nat);
    }
}

/// Whether the opcode is an integer operator with one operand.
pub open spec fn is_unary(op: WasmOpcode) -> bool {
    let c = op.code();
    c == 0x45 || c == 0x50 || (0x67 <= c <= 0x69) || (0x79 <= c <= 0x7B) || c == 0xA7 || c == 0xAC
        || c == 0xAD || 0xC0 <= c
}

/// Whether the opcode is an integer operator with two operands.
pub open spec fn is_binary(op: WasmOpcode) -> bool {
    let c = op.code();
    (0x46 <= c <= 0x4F) || (0x51 <= c <= 0x5A) || (0x6A <= c <= 0x78) || (0x7C <= c <= 0x8A)
}

/// Whether the opcode is an integer operator with one operand.
pub fn opcode_is_unary(op: WasmOpcode) -> (r: bool)
    ensures
        r == is_unary(op),
{
    let c: u8 = op.to_u8();
    c == 0x45 || c == 0x50 || (0x67 <= c && c <= 0x69) || (0x79 <= c && c <= 0x7B) || c == 0xA7
        || c == 0xAC || c == 0xAD || 0xC0 <= c
}

/// Whether the opcode is an integer operator with two operands.
pub fn opcode_is_binary(op: WasmOpcode) -> (r: bool)
    ensures
        r == is_binary(op),
{
    let c: u8 = op.to_u8();
    (0x46 <= c && c <= 0x4F) || (0x51 <= c && c <= 0x5A) || (0x6A <= c && c <= 0x78) || (0x7C <= c
        && c <= 0x8A)
}

/// The cell that a one-operand integer operator makes of the cell `a`.
pub open spec fn spec_unary(op: WasmOpcode, a: WasmStackValue) -> WasmStackValue {
    match op {
        WasmOpcode::I32Eqz => WasmStackValue::spec_from_bool(a.spec_get_i32() == 0),
        WasmOpcode::I64Eqz => WasmStackValue::spec_from_bool(a.spec_get_i64() == 0),
        WasmOpcode::I32Clz => WasmStackValue::spec_from_u32(u32_leading_zeros(a.spec_get_u32())),
        WasmOpcode::I32Ctz => WasmStackValue::spec_from_u32(u32_trailing_zeros(a.spec_get_u32())),
        WasmOpcode::I32Popcnt => WasmStackValue::spec_from_u32(
            popcount(a.spec_get_u32() as u64) as u32,
        ),
        WasmOpcode::I64Clz => WasmStackValue::spec_from_u64(
            u64_leading_zeros(a.spec_get_u64()) as u64,
        ),
        WasmOpcode::I64Ctz => WasmStackValue::spec_from_u64(
            u64_trailing_zeros(a.spec_get_u64()) as u64,
        ),
        WasmOpcode::I64Popcnt => WasmStackValue::spec_from_u64(popcount(a.spec_get_u64()) as u64),
        WasmOpcode::I32WrapI64 => WasmStackValue::spec_from_u32(spec_i32_wrap_i64(a.spec_get_u64())),
        WasmOpcode::I64ExtendI32S => WasmStackValue::spec_from_i64(a.spec_get_i32() as i64),
        WasmOpcode::I64ExtendI32U => WasmStackValue::spec_from_u64(a.spec_get_u32() as u64),
        WasmOpcode::I32Extend8S => WasmStackValue::spec_from_i32(
            spec_i32_extend8_s(a.spec_get_i32()),
        ),
        WasmOpcode::I32Extend16S => WasmStackValue::spec_from_i32(
            spec_i32_extend16_s(a.spec_get_i32()),
        ),
        WasmOpcode::I64Extend8S => WasmStackValue::spec_from_i64(
            spec_i64_extend8_s(a.spec_get_i64()),
        ),
        WasmOpcode::I64Extend16S => WasmStackValue::spec_from_i64(
            spec_i64_extend16_s(a.spec_get_i64()),
        ),
        WasmOpcode::I64Extend32S => WasmStackValue::spec_from_i64(
            spec_i64_extend32_s(a.spec_get_i64()),
        ),
        _ => a,
    }
}

/// A signed 32-bit result as a cell.
pub open spec fn cell_i32(r: Result<i32, WasmRuntimeError>) -> Result<
    WasmStackValue,
    WasmRuntimeError,
> {
    match r {
        Ok(v) => Ok(WasmStackValue::spec_from_i32(v)),
        Err(e) => Err(e),
    }
}

/// An unsigned 32-bit result as a cell.
pub open spec fn cell_u32(r: Result<u32, WasmRuntimeError>) -> Result<
    WasmStackValue,
    WasmRuntimeError,
> {
    match r {
        Ok(v) => Ok(WasmStackValue::spec_from_u32(v)),
        Err(e) => Err(e),
    }
}

/// A signed 64-bit result as a cell.
pub open spec fn cell_i64(r: Result<i64, WasmRuntimeError>) -> Result<
    WasmStackValue,
    WasmRuntimeError,
> {
    match r {
        Ok(v) => Ok(WasmStackValue::spec_from_i64(v)),
        Err(e) => Err(e),
    }
}

/// An unsigned 64-bit result as a cell.
pub open spec fn cell_u64(r: Result<u64, WasmRuntimeError>) -> Result<
    WasmStackValue,
    WasmRuntimeError,
> {
    match r {
        Ok(v) => Ok(WasmStackValue::spec_from_u64(v)),
        Err(e) => Err(e),
    }
}

/// The cell that a two-operand integer operator makes of the cells `a`
/// (first operand) and `b` (second operand), or the trap that it raises.
pub open spec fn spec_binary(op: WasmOpcode, a: WasmStackValue, b: WasmStackValue) -> Result<
    WasmStackValue,
    WasmRuntimeError,
> {
    let a32 = a.spec_get_u32();
    let b32 = b.spec_get_u32();
    let s32 = a.spec_get_i32();
    let t32 = b.spec_get_i32();
    let a64 = a.spec_get_u64();
    let b64 = b.spec_get_u64();
    let s64 = a.spec_get_i64();
    let t64 = b.spec_get_i64();
    match op {
        WasmOpcode::I32Eq => Ok(WasmStackValue::spec_from_bool(s32 == t32)),
        WasmOpcode::I32Ne => Ok(WasmStackValue::spec_from_bool(s32 != t32)),
        WasmOpcode::I32LtS => Ok(WasmStackValue::spec_from_bool(s32 < t32)),
        WasmOpcode::I32LtU => Ok(WasmStackValue::spec_from_bool(a32 < b32)),
        WasmOpcode::I32GtS => Ok(WasmStackValue::spec_from_bool(s32 > t32)),
        WasmOpcode::I32GtU => Ok(WasmStackValue::spec_from_bool(a32 > b32)),
        WasmOpcode::I32LeS => Ok(WasmStackValue::spec_from_bool(s32 <= t32)),
        WasmOpcode::I32LeU => Ok(WasmStackValue::spec_from_bool(a32 <= b32)),
        WasmOpcode::I32GeS => Ok(WasmStackValue::spec_from_bool(s32 >= t32)),
        WasmOpcode::I32GeU => Ok(WasmStackValue::spec_from_bool(a32 >= b32)),
        WasmOpcode::I64Eq => Ok(WasmStackValue::spec_from_bool(s64 == t64)),
        WasmOpcode::I64Ne => Ok(WasmStackValue::spec_from_bool(s64 != t64)),
        WasmOpcode::I64LtS => Ok(WasmStackValue::spec_from_bool(s64 < t64)),
        WasmOpcode::I64LtU => Ok(WasmStackValue::spec_from_bool(a64 < b64)),
        WasmOpcode::I64GtS => Ok(WasmStackValue::spec_from_bool(s64 > t64)),
        WasmOpcode::I64GtU => Ok(WasmStackValue::spec_from_bool(a64 > b64)),
        WasmOpcode::I64LeS => Ok(WasmStackValue::spec_from_bool(s64 <= t64)),
        WasmOpcode::I64LeU => Ok(WasmStackValue::spec_from_bool(a64 <= b64)),
        WasmOpcode::I64GeS => Ok(WasmStackValue::spec_from_bool(s64 >= t64)),
        WasmOpcode::I64GeU => Ok(WasmStackValue::spec_from_bool(a64 >= b64)),
        WasmOpcode::I32Add => Ok(WasmStackValue::spec_from_u32(spec_i32_add(a32, b32))),
        WasmOpcode::I32Sub => Ok(WasmStackValue::spec_from_u32(spec_i32_sub(a32, b32))),
        WasmOpcode::I32Mul => Ok(WasmStackValue::spec_from_u32(spec_i32_mul(a32, b32))),
        WasmOpcode::I32DivS => cell_i32(spec_i32_div_s(s32, t32)),
        WasmOpcode::I32DivU => cell_u32(spec_i32_div_u(a32, b32)),
        WasmOpcode::I32RemS => cell_i32(spec_i32_rem_s(s32, t32)),
        WasmOpcode::I32RemU => cell_u32(spec_i32_rem_u(a32, b32)),
        WasmOpcode::I32And => Ok(WasmStackValue::spec_from_u32(a32 & b32)),
        WasmOpcode::I32Or => Ok(WasmStackValue::spec_from_u32(a32 | b32)),
        WasmOpcode::I32Xor => Ok(WasmStackValue::spec_from_u32(a32 ^ b32)),
        WasmOpcode::I32Shl => Ok(WasmStackValue::spec_from_u32(spec_i32_shl(a32, b32))),
        WasmOpcode::I32ShrS => Ok(WasmStackValue::spec_from_i32(spec_i32_shr_s(s32, b32))),
        WasmOpcode::I32ShrU => Ok(WasmStackValue::spec_from_u32(spec_i32_shr_u(a32, b32))),
        WasmOpcode::I32Rotl => Ok(WasmStackValue::spec_from_u32(spec_i32_rotl(a32, b32))),
        WasmOpcode::I32Rotr => Ok(WasmStackValue::spec_from_u32(spec_i32_rotr(a32, b32))),
        WasmOpcode::I64Add => Ok(WasmStackValue::spec_from_u64(spec_i64_add(a64, b64))),
        WasmOpcode::I64Sub => Ok(WasmStackValue::spec_from_u64(spec_i64_sub(a64, b64))),
        WasmOpcode::I64Mul => Ok(WasmStackValue::spec_from_u64(spec_i64_mul(a64, b64))),
        WasmOpcode::I64DivS => cell_i64(spec_i64_div_s(s64, t64)),
        WasmOpcode::I64DivU => cell_u64(spec_i64_div_u(a64, b64)),
        WasmOpcode::I64RemS => cell_i64(spec_i64_rem_s(s64, t64)),
        WasmOpcode::I64RemU => cell_u64(spec_i64_rem_u(a64, b64)),
        WasmOpcode::I64And => Ok(WasmStackValue::spec_from_u64(a64 & b64)),
        WasmOpcode::I64Or => Ok(WasmStackValue::spec_from_u64(a64 | b64)),
        WasmOpcode::I64Xor => Ok(WasmStackValue::spec_from_u64(a64 ^ b64)),
        WasmOpcode::I64Shl => Ok(WasmStackValue::spec_from_u64(spec_i64_shl(a64, b64))),
        WasmOpcode::I64ShrS => Ok(WasmStackValue::spec_from_i64(spec_i64_shr_s(s64, b64))),
        WasmOpcode::I64ShrU => Ok(WasmStackValue::spec_from_u64(spec_i64_shr_u(a64, b64))),
        WasmOpcode::I64Rotl => Ok(WasmStackValue::spec_from_u64(spec_i64_rotl(a64, b64))),
        WasmOpcode::I64Rotr => Ok(WasmStackValue::spec_from_u64(spec_i64_rotr(a64, b64))),
        _ => Ok(a),
    }
}

/// Applies a one-operand integer operator to a cell. `None` where the opcode
/// is no such operator.
pub fn unary(op: WasmOpcode, a: WasmStackValue) -> (r: Option<WasmStackValue>)
    ensures
        r == (if is_unary(op) {
            Some(spec_unary(op, a))
        } else {
            None
        }),
{
    match op {
        WasmOpcode::I32Eqz => Some(WasmStackValue::from_bool(a.get_i32() == 0)),
        WasmOpcode::I64Eqz => Some(WasmStackValue::from_bool(a.get_i64() == 0)),
        WasmOpcode::I32Clz => Some(WasmStackValue::from_u32(i32_clz(a.get_u32()))),
        WasmOpcode::I32Ctz => Some(WasmStackValue::from_u32(i32_ctz(a.get_u32()))),
        WasmOpcode::I32Popcnt => Some(WasmStackValue::from_u32(i32_popcnt(a.get_u32()))),
        WasmOpcode::I64Clz => Some(WasmStackValue::from_u64(i64_clz(a.get_u64()))),
        WasmOpcode::I64Ctz => Some(WasmStackValue::from_u64(i64_ctz(a.get_u64()))),
        WasmOpcode::I64Popcnt => Some(WasmStackValue::from_u64(i64_popcnt(a.get_u64()))),
        WasmOpcode::I32WrapI64 => Some(WasmStackValue::from_u32(i32_wrap_i64(a.get_u64()))),
        WasmOpcode::I64ExtendI32S => Some(WasmStackValue::from_i64(a.get_i32() as i64)),
        WasmOpcode::I64ExtendI32U => Some(WasmStackValue::from_u64(a.get_u32() as u64)),
        WasmOpcode::I32Extend8S => Some(WasmStackValue::from_i32(i32_extend8_s(a.get_i32()))),
        WasmOpcode::I32Extend16S => Some(WasmStackValue::from_i32(i32_extend16_s(a.get_i32()))),
        WasmOpcode::I64Extend8S => Some(WasmStackValue::from_i64(i64_extend8_s(a.get_i64()))),
        WasmOpcode::I64Extend16S => Some(WasmStackValue::from_i64(i64_extend16_s(a.get_i64()))),
        WasmOpcode::I64Extend32S => Some(WasmStackValue::from_i64(i64_extend32_s(a.get_i64()))),
        _ => None,
    }
}

/// Packs an integer result into a cell.
fn pack_i32(r: Result<i32, WasmRuntimeError>) -> (c: Result<WasmStackValue, WasmRuntimeError>)
    ensures
        c == cell_i32(r),
{
    match r {
        Ok(v) => Ok(WasmStackValue::from_i32(v)),
        Err(e) => Err(e),
    }
}

fn pack_u32(r: Result<u32, WasmRuntimeError>) -> (c: Result<WasmStackValue, WasmRuntimeError>)
    ensures
        c == cell_u32(r),
{
    match r {
        Ok(v) => Ok(WasmStackValue::from_u32(v)),
        Err(e) => Err(e),
    }
}

fn pack_i64(r: Result<i64, WasmRuntimeError>) -> (c: Result<WasmStackValue, WasmRuntimeError>)
    ensures
        c == cell_i64(r),
{
    match r {
        Ok(v) => Ok(WasmStackValue::from_i64(v)),
        Err(e) => Err(e),
    }
}

fn pack_u64(r: Result<u64, WasmRuntimeError>) -> (c: Result<WasmStackValue, WasmRuntimeError>)
    ensures
        c == cell_u64(r),
{
    match r {
        Ok(v) => Ok(WasmStackValue::from_u64(v)),
        Err(e) => Err(e),
    }
}

/// Applies a two-operand integer operator to the cells `a` (first operand)
/// and `b` (second operand). `None` where the opcode is no such operator;
/// otherwise the resulting cell, or the trap of a division.
pub fn binary(op: WasmOpcode, a: WasmStackValue, b: WasmStackValue) -> (r: Option<
    Result<WasmStackValue, WasmRuntimeError>,
>)
    ensures
        r == (if is_binary(op) {
            Some(spec_binary(op, a, b))
        } else {
            None
        }),
{
    let a32: u32 = a.get_u32();
    let b32: u32 = b.get_u32();
    let s32: i32 = a.get_i32();
    let t32: i32 = b.get_i32();
    let a64: u64 = a.get_u64();
    let b64: u64 = b.get_u64();
    let s64: i64 = a.get_i64();
    let t64: i64 = b.get_i64();
    match op {
        WasmOpcode::I32Eq => Some(Ok(WasmStackValue::from_bool(s32 == t32))),
        WasmOpcode::I32Ne => Some(Ok(WasmStackValue::from_bool(s32 != t32))),
        WasmOpcode::I32LtS => Some(Ok(WasmStackValue::from_bool(s32 < t32))),
        WasmOpcode::I32LtU => Some(Ok(WasmStackValue::from_bool(a32 < b32))),
        WasmOpcode::I32GtS => Some(Ok(WasmStackValue::from_bool(s32 > t32))),
        WasmOpcode::I32GtU => Some(Ok(WasmStackValue::from_bool(a32 > b32))),
        WasmOpcode::I32LeS => Some(Ok(WasmStackValue::from_bool(s32 <= t32))),
        WasmOpcode::I32LeU => Some(Ok(WasmStackValue::from_bool(a32 <= b32))),
        WasmOpcode::I32GeS => Some(Ok(WasmStackValue::from_bool(s32 >= t32))),
        WasmOpcode::I32GeU => Some(Ok(WasmStackValue::from_bool(a32 >= b32))),
        WasmOpcode::I64Eq => Some(Ok(WasmStackValue::from_bool(s64 == t64))),
        WasmOpcode::I64Ne => Some(Ok(WasmStackValue::from_bool(s64 != t64))),
        WasmOpcode::I64LtS => Some(Ok(WasmStackValue::from_bool(s64 < t64))),
        WasmOpcode::I64LtU => Some(Ok(WasmStackValue::from_bool(a64 < b64))),
        WasmOpcode::I64GtS => Some(Ok(WasmStackValue::from_bool(s64 > t64))),
        WasmOpcode::I64GtU => Some(Ok(WasmStackValue::from_bool(a64 > b64))),
        WasmOpcode::I64LeS => Some(Ok(WasmStackValue::from_bool(s64 <= t64))),
        WasmOpcode::I64LeU => Some(Ok(WasmStackValue::from_bool(a64 <= b64))),
        WasmOpcode::I64GeS => Some(Ok(WasmStackValue::from_bool(s64 >= t64))),
        WasmOpcode::I64GeU => Some(Ok(WasmStackValue::from_bool(a64 >= b64))),
        WasmOpcode::I32Add => Some(Ok(WasmStackValue::from_u32(i32_add(a32, b32)))),
        WasmOpcode::I32Sub => Some(Ok(WasmStackValue::from_u32(i32_sub(a32, b32)))),
        WasmOpcode::I32Mul => Some(Ok(WasmStackValue::from_u32(i32_mul(a32, b32)))),
        WasmOpcode::I32DivS => Some(pack_i32(i32_div_s(s32, t32))),
        WasmOpcode::I32DivU => Some(pack_u32(i32_div_u(a32, b32))),
        WasmOpcode::I32RemS => Some(pack_i32(i32_rem_s(s32, t32))),
        WasmOpcode::I32RemU => Some(pack_u32(i32_rem_u(a32, b32))),
        WasmOpcode::I32And => Some(Ok(WasmStackValue::from_u32(a32 & b32))),
        WasmOpcode::I32Or => Some(Ok(WasmStackValue::from_u32(a32 | b32))),
        WasmOpcode::I32Xor => Some(Ok(WasmStackValue::from_u32(a32 ^ b32))),
        WasmOpcode::I32Shl => Some(Ok(WasmStackValue::from_u32(i32_shl(a32, b32)))),
        WasmOpcode::I32ShrS => Some(Ok(WasmStackValue::from_i32(i32_shr_s(s32, b32)))),
        WasmOpcode::I32ShrU => Some(Ok(WasmStackValue::from_u32(i32_shr_u(a32, b32)))),
        WasmOpcode::I32Rotl => Some(Ok(WasmStackValue::from_u32(i32_rotl(a32, b32)))),
        WasmOpcode::I32Rotr => Some(Ok(WasmStackValue::from_u32(i32_rotr(a32, b32)))),
        WasmOpcode::I64Add => Some(Ok(WasmStackValue::from_u64(i64_add(a64, b64)))),
        WasmOpcode::I64Sub => Some(Ok(WasmStackValue::from_u64(i64_sub(a64, b64)))),
        WasmOpcode::I64Mul => Some(Ok(WasmStackValue::from_u64(i64_mul(a64, b64)))),
        WasmOpcode::I64DivS => Some(pack_i64(i64_div_s(s64, t64))),
        WasmOpcode::I64DivU => Some(pack_u64(i64_div_u(a64, b64))),
        WasmOpcode::I64RemS => Some(pack_i64(i64_rem_s(s64, t64))),
        WasmOpcode::I64RemU => Some(pack_u64(i64_rem_u(a64, b64))),
        WasmOpcode::I64And => Some(Ok(WasmStackValue::from_u64(a64 & b64))),
        WasmOpcode::I64Or => Some(Ok(WasmStackValue::from_u64(a64 | b64))),
        WasmOpcode::I64Xor => Some(Ok(WasmStackValue::from_u64(a64 ^ b64))),
        WasmOpcode::I64Shl => Some(Ok(WasmStackValue::from_u64(i64_shl(a64, b64)))),
        WasmOpcode::I64ShrS => Some(Ok(WasmStackValue::from_i64(i64_shr_s(s64, b64)))),
        WasmOpcode::I64ShrU => Some(Ok(WasmStackValue::from_u64(i64_shr_u(a64, b64)))),
        WasmOpcode::I64Rotl => Some(Ok(WasmStackValue::from_u64(i64_rotl(a64, b64)))),
        WasmOpcode::I64Rotr => Some(Ok(WasmStackValue::from_u64(i64_rotr(a64, b64)))),
        _ => None,
    }
}

} // verus!
