use wasm_o::numeric::{
    binary, i32_add, i32_clz, i32_ctz, i32_div_s, i32_div_u, i32_extend16_s, i32_extend8_s,
    i32_mul, i32_popcnt, i32_rem_s, i32_rem_u, i32_rotl, i32_rotr, i32_shl, i32_shr_s, i32_shr_u,
    i32_sub, i32_wrap_i64, i64_add, i64_clz, i64_ctz, i64_div_s, i64_div_u, i64_extend16_s,
    i64_extend32_s, i64_extend8_s, i64_mul, i64_popcnt, i64_rem_s, i64_rem_u, i64_rotl, i64_rotr,
    i64_shl, i64_shr_s, i64_shr_u, i64_sub, opcode_is_binary, opcode_is_unary, unary,
};
use wasm_o::wasm::{WasmOpcode, WasmRuntimeError, WasmStackValue, WasmValType, WasmValue};

#[test]
fn i32_sum_difference_product_wrap() {
    assert_eq!(i32_add(1234, 5678), 6912);
    assert_eq!(i32_add(0xDEAD_BEEF, 0x5555_5555), 0x3403_1444);
    assert_eq!(i32_add(u32::MAX, 1), 0);
    assert_eq!(i32_sub(0, 1), u32::MAX);
    assert_eq!(i32_sub(0x5555_5555, 0xDEAD_BEEF), 0x76A7_9666);
    assert_eq!(i32_mul(0x1_0000, 0x1_0000), 0);
    assert_eq!(i32_mul(0xFFFF_FFFF, 2), 0xFFFF_FFFE);
}

#[test]
fn i64_sum_difference_product_wrap() {
    assert_eq!(i64_add(u64::MAX, 2), 1);
    assert_eq!(i64_sub(0, 1), u64::MAX);
    assert_eq!(i64_mul(1 << 63, 2), 0);
    assert_eq!(i64_mul(3, 5), 15);
}

#[test]
fn i32_signed_division_truncates_and_traps() {
    assert_eq!(i32_div_s(7, 2), Ok(3));
    assert_eq!(i32_div_s(-7, 2), Ok(-3));
    assert_eq!(i32_div_s(7, -2), Ok(-3));
    assert_eq!(i32_div_s(-7, -2), Ok(3));
    assert_eq!(i32_div_s(i32::MIN, 1), Ok(i32::MIN));
    assert_eq!(i32_div_s(i32::MIN, 2), Ok(i32::MIN / 2));
    assert_eq!(i32_div_s(7, 0), Err(WasmRuntimeError::DivideByZero));
    assert_eq!(i32_div_s(i32::MIN, 0), Err(WasmRuntimeError::DivideByZero));
    assert_eq!(i32_div_s(i32::MIN, -1), Err(WasmRuntimeError::IntegerOverflow));
}

#[test]
fn i64_signed_division_truncates_and_traps() {
    assert_eq!(i64_div_s(-9, 4), Ok(-2));
    assert_eq!(i64_div_s(i64::MIN, 1), Ok(i64::MIN));
    assert_eq!(i64_div_s(i64::MAX, -1), Ok(-i64::MAX));
    assert_eq!(i64_div_s(1, 0), Err(WasmRuntimeError::DivideByZero));
    assert_eq!(i64_div_s(i64::MIN, -1), Err(WasmRuntimeError::IntegerOverflow));
}

#[test]
fn remainders_follow_the_dividend() {
    assert_eq!(i32_rem_s(7, 3), Ok(1));
    assert_eq!(i32_rem_s(-7, 3), Ok(-1));
    assert_eq!(i32_rem_s(7, -3), Ok(1));
    assert_eq!(i32_rem_s(-7, -3), Ok(-1));
    assert_eq!(i32_rem_s(i32::MIN, -1), Ok(0));
    assert_eq!(i32_rem_s(1, 0), Err(WasmRuntimeError::DivideByZero));
    assert_eq!(i64_rem_s(i64::MIN, -1), Ok(0));
    assert_eq!(i64_rem_s(-10, 4), Ok(-2));
    assert_eq!(i64_rem_s(1, 0), Err(WasmRuntimeError::DivideByZero));
}

#[test]
fn unsigned_division_and_remainder() {
    assert_eq!(i32_div_u(0xFFFF_FFFF, 2), Ok(0x7FFF_FFFF));
    assert_eq!(i32_div_u(1, 0), Err(WasmRuntimeError::DivideByZero));
    assert_eq!(i32_rem_u(0xFFFF_FFFF, 16), Ok(15));
    assert_eq!(i32_rem_u(1, 0), Err(WasmRuntimeError::DivideByZero));
    assert_eq!(i64_div_u(u64::MAX, 2), Ok(u64::MAX / 2));
    assert_eq!(i64_div_u(1, 0), Err(WasmRuntimeError::DivideByZero));
    assert_eq!(i64_rem_u(u64::MAX, 10), Ok(5));
    assert_eq!(i64_rem_u(1, 0), Err(WasmRuntimeError::DivideByZero));
}

#[test]
fn shifts_take_the_count_modulo_the_width() {
    assert_eq!(i32_shl(1, 33), 2);
    assert_eq!(i32_shl(1, 31), 0x8000_0000);
    assert_eq!(i32_shr_u(0x8000_0000, 32), 0x8000_0000);
    assert_eq!(i32_shr_u(0x8000_0000, 31), 1);
    assert_eq!(i32_shr_s(-8, 1), -4);
    assert_eq!(i32_shr_s(-8, 33), -4);
    assert_eq!(i32_shr_s(i32::MIN, 31), -1);
    assert_eq!(i32_shr_s(0x4000_0000, 30), 1);
    assert_eq!(i64_shl(1, 65), 2);
    assert_eq!(i64_shr_u(1 << 63, 63), 1);
    assert_eq!(i64_shr_s(-16, 66), -4);
}

#[test]
fn rotations_take_the_count_modulo_the_width() {
    assert_eq!(i32_rotl(0x8000_0001, 1), 3);
    assert_eq!(i32_rotl(0x1234_5678, 32), 0x1234_5678);
    assert_eq!(i32_rotl(0x1234_5678, 36), 0x2345_6781);
    assert_eq!(i32_rotr(3, 1), 0x8000_0001);
    assert_eq!(i32_rotr(0x1234_5678, 4), 0x8123_4567);
    assert_eq!(i64_rotl(1 << 63, 1), 1);
    assert_eq!(i64_rotr(1, 1), 1 << 63);
    assert_eq!(i64_rotr(0x0123_4567_89AB_CDEF, 64), 0x0123_4567_89AB_CDEF);
}

#[test]
fn bit_counts() {
    assert_eq!(i32_clz(0), 32);
    assert_eq!(i32_clz(1), 31);
    assert_eq!(i32_clz(0x8000_0000), 0);
    assert_eq!(i32_ctz(0), 32);
    assert_eq!(i32_ctz(8), 3);
    assert_eq!(i32_popcnt(0), 0);
    assert_eq!(i32_popcnt(0xFFFF_FFFF), 32);
    assert_eq!(i32_popcnt(0xF0F0), 8);
    assert_eq!(i64_clz(0), 64);
    assert_eq!(i64_clz(1), 63);
    assert_eq!(i64_ctz(1 << 40), 40);
    assert_eq!(i64_popcnt(u64::MAX), 64);
    assert_eq!(i64_popcnt(0x8000_0000_0000_0001), 2);
}

#[test]
fn sign_extension_from_narrow_widths() {
    assert_eq!(i32_extend8_s(0x7F), 0x7F);
    assert_eq!(i32_extend8_s(0x80), -128);
    assert_eq!(i32_extend8_s(0x1234_56FF), -1);
    assert_eq!(i32_extend16_s(0x7FFF), 0x7FFF);
    assert_eq!(i32_extend16_s(0x8000), -32768);
    assert_eq!(i32_extend16_s(0x0001_FFFE), -2);
    assert_eq!(i64_extend8_s(0x180), -128);
    assert_eq!(i64_extend16_s(0xFFFF), -1);
    assert_eq!(i64_extend32_s(0x8000_0000), -2147483648);
    assert_eq!(i64_extend32_s(0x1_7FFF_FFFF), 0x7FFF_FFFF);
}

#[test]
fn wrap_keeps_the_low_32_bits() {
    assert_eq!(i32_wrap_i64(0x1234_5678_9ABC_DEF0), 0x9ABC_DEF0);
    assert_eq!(i32_wrap_i64(u64::MAX), 0xFFFF_FFFF);
    assert_eq!(i32_wrap_i64(7), 7);
}

#[test]
fn operators_on_cells() {
    let a = WasmStackValue::from_i32(-1);
    let b = WasmStackValue::from_i32(1);
    assert_eq!(binary(WasmOpcode::I32Add, a, b), Some(Ok(WasmStackValue::from_u32(0))));
    assert_eq!(binary(WasmOpcode::I32LtS, a, b), Some(Ok(WasmStackValue::from_bool(true))));
    assert_eq!(binary(WasmOpcode::I32LtU, a, b), Some(Ok(WasmStackValue::from_bool(false))));
    assert_eq!(binary(WasmOpcode::I32GeU, a, b), Some(Ok(WasmStackValue::from_bool(true))));
    assert_eq!(
        binary(WasmOpcode::I64DivS, WasmStackValue::from_i64(-9), WasmStackValue::from_i64(0)),
        Some(Err(WasmRuntimeError::DivideByZero))
    );
    assert_eq!(
        binary(WasmOpcode::I32DivS, WasmStackValue::from_i32(i32::MIN), a),
        Some(Err(WasmRuntimeError::IntegerOverflow))
    );
    assert_eq!(binary(WasmOpcode::I32Eqz, a, b), None);
    assert_eq!(binary(WasmOpcode::F32Add, a, b), None);
    assert_eq!(unary(WasmOpcode::I32Eqz, WasmStackValue::from_i32(0)), Some(WasmStackValue::from_bool(true)));
    assert_eq!(unary(WasmOpcode::I64Eqz, WasmStackValue::from_i64(1 << 40)), Some(WasmStackValue::from_bool(false)));
    assert_eq!(
        unary(WasmOpcode::I32WrapI64, WasmStackValue::from_u64(0xAAAA_BBBB_CCCC_DDDD)),
        Some(WasmStackValue::from_u32(0xCCCC_DDDD))
    );
    assert_eq!(
        unary(WasmOpcode::I64ExtendI32S, WasmStackValue::from_u32(0xFFFF_FFFF)),
        Some(WasmStackValue::from_i64(-1))
    );
    assert_eq!(
        unary(WasmOpcode::I64ExtendI32U, WasmStackValue::from_i32(-1)),
        Some(WasmStackValue::from_u64(0xFFFF_FFFF))
    );
    assert_eq!(unary(WasmOpcode::I32Add, a), None);
    assert!(opcode_is_unary(WasmOpcode::I64Extend32S));
    assert!(!opcode_is_unary(WasmOpcode::I32Add));
    assert!(opcode_is_binary(WasmOpcode::I64Rotr));
    assert!(!opcode_is_binary(WasmOpcode::F64Add));
}

#[test]
fn cells_keep_their_bits() {
    assert_eq!(WasmStackValue::from_bool(true).get_i32(), 1);
    assert!(WasmStackValue::from_bool(true).get_bool());
    assert!(!WasmStackValue::from_bool(false).get_bool());
    assert_eq!(WasmStackValue::from_usize(7).get_u64(), 7);
    assert_eq!(WasmStackValue::from_i32(-1).get_i64(), -1);
    assert_eq!(WasmStackValue::from_i32(-1).get_u32(), u32::MAX);
    assert_eq!(WasmStackValue::from_u32(0xFFFF_FFFF).get_u64(), 0xFFFF_FFFF);
    assert_eq!(WasmStackValue::from_u32(0xFFFF_FFFF).get_i32(), -1);
    assert_eq!(WasmStackValue::from_i64(i64::MIN).get_u64(), 1 << 63);
    assert_eq!(WasmStackValue::from_u64(0x1_0000_0002).get_u32(), 2);
    assert_eq!(WasmStackValue::from_u64(0x1234_5678).get_u8(), 0x78);
    assert_eq!(WasmStackValue::from_u64(0x1234_5678).get_u16(), 0x5678);
    assert!(!WasmStackValue::from_u64(0x1_0000_0000).get_bool());
    assert_eq!(
        WasmStackValue::from_u64(0xFFFF_FFFF_0000_0005).get_by_type(WasmValType::I32),
        WasmValue::I32(5)
    );
    assert_eq!(
        WasmStackValue::from_i64(-5).get_by_type(WasmValType::I64),
        WasmValue::I64(-5)
    );
    assert_eq!(WasmStackValue::from(WasmValue::I32(-2)).get_i64(), -2);
    assert_eq!(WasmStackValue::from(WasmValue::Empty).get_u64(), 0);
    assert_eq!(WasmStackValue::from(true), WasmStackValue::from_usize(1));
    assert_eq!(WasmStackValue::from(3usize), WasmStackValue::from_u64(3));
    assert_eq!(WasmStackValue::from(3u32), WasmStackValue::from_u64(3));
    assert_eq!(WasmStackValue::from(-3i32), WasmStackValue::from_i64(-3));
    assert_eq!(WasmStackValue::from(3u64), WasmStackValue::from_u64(3));
    assert_eq!(WasmStackValue::from(-3i64), WasmStackValue::from_i64(-3));
}

#[test]
fn boundary_values() {
    assert_eq!(WasmValue::from(5i32), WasmValue::I32(5));
    assert_eq!(WasmValue::from(0xDEAD_BEEFu32).get_u32(), Ok(0xDEAD_BEEF));
    assert_eq!(WasmValue::from(5i64), WasmValue::I64(5));
    assert_eq!(WasmValue::from(u64::MAX), WasmValue::I64(-1));
    assert_eq!(WasmValue::I32(-1).get_i32(), Ok(-1));
    assert_eq!(WasmValue::I64(-1).get_i32(), Err(WasmRuntimeError::InvalidParameter));
    assert_eq!(WasmValue::I64(-1).get_u64(), Ok(u64::MAX));
    assert_eq!(WasmValue::I32(1).get_i64(), Err(WasmRuntimeError::InvalidParameter));
    assert_eq!(WasmValue::Empty.get_u32(), Err(WasmRuntimeError::InvalidParameter));
    assert!(WasmValue::Empty.is_empty());
    assert!(!WasmValue::I32(0).is_empty());
    assert_eq!(WasmValue::default_for(WasmValType::I64), WasmValue::I64(0));
    assert_eq!(WasmValue::default_for(WasmValType::I32), WasmValue::I32(0));
    assert_eq!(WasmValue::I32(0).val_type(), Some(WasmValType::I32));
    assert_eq!(WasmValue::Empty.val_type(), None);
}
