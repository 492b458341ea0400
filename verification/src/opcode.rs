//! The instruction set: one opcode per byte of the binary format, and what
//! each opcode carries as immediates and does to the depth of the operand
//! stack.

use vstd::prelude::*;

verus! {

/// An instruction of the WebAssembly 1.0 opcode table or of the
/// sign-extension operators.
#[derive(Clone, Copy, Debug, PartialEq, Eq, Structural)]
pub enum WasmOpcode {
    /// `unreachable`
    Unreachable,
    /// `nop`
    Nop,
    /// `block`
    Block,
    /// `loop`
    Loop,
    /// `if`
    If,
    /// `else`
    Else,
    /// `end`
    End,
    /// `br`
    Br,
    /// `br_if`
    BrIf,
    /// `br_table`
    BrTable,
    /// `return`
    Return,
    /// `call`
    Call,
    /// `call_indirect`
    CallIndirect,
    /// `drop`
    Drop,
    /// `select`
    Select,
    /// `local.get`
    LocalGet,
    /// `local.set`
    LocalSet,
    /// `local.tee`
    LocalTee,
    /// `global.get`
    GlobalGet,
    /// `global.set`
    GlobalSet,
    /// `i32.load`
    I32Load,
    /// `i64.load`
    I64Load,
    /// `f32.load`
    F32Load,
    /// `f64.load`
    F64Load,
    /// `i32.load8_s`
    I32Load8S,
    /// `i32.load8_u`
    I32Load8U,
    /// `i32.load16_s`
    I32Load16S,
    /// `i32.load16_u`
    I32Load16U,
    /// `i64.load8_s`
    I64Load8S,
    /// `i64.load8_u`
    I64Load8U,
    /// `i64.load16_s`
    I64Load16S,
    /// `i64.load16_u`
    I64Load16U,
    /// `i64.load32_s`
    I64Load32S,
    /// `i64.load32_u`
    I64Load32U,
    /// `i32.store`
    I32Store,
    /// `i64.store`
    I64Store,
    /// `f32.store`
    F32Store,
    /// `f64.store`
    F64Store,
    /// `i32.store8`
    I32Store8,
    /// `i32.store16`
    I32Store16,
    /// `i64.store8`
    I64Store8,
    /// `i64.store16`
    I64Store16,
    /// `i64.store32`
    I64Store32,
    /// `memory.size`
    MemorySize,
    /// `memory.grow`
    MemoryGrow,
    /// `i32.const`
    I32Const,
    /// `i64.const`
    I64Const,
    /// `f32.const`
    F32Const,
    /// `f64.const`
    F64Const,
    /// `i32.eqz`
    I32Eqz,
    /// `i32.eq`
    I32Eq,
    /// `i32.ne`
    I32Ne,
    /// `i32.lt_s`
    I32LtS,
    /// `i32.lt_u`
    I32LtU,
    /// `i32.gt_s`
    I32GtS,
    /// `i32.gt_u`
    I32GtU,
    /// `i32.le_s`
    I32LeS,
    /// `i32.le_u`
    I32LeU,
    /// `i32.ge_s`
    I32GeS,
    /// `i32.ge_u`
    I32GeU,
    /// `i64.eqz`
    I64Eqz,
    /// `i64.eq`
    I64Eq,
    /// `i64.ne`
    I64Ne,
    /// `i64.lt_s`
    I64LtS,
    /// `i64.lt_u`
    I64LtU,
    /// `i64.gt_s`
    I64GtS,
    /// `i64.gt_u`
    I64GtU,
    /// `i64.le_s`
    I64LeS,
    /// `i64.le_u`
    I64LeU,
    /// `i64.ge_s`
    I64GeS,
    /// `i64.ge_u`
    I64GeU,
    /// `f32.eq`
    F32Eq,
    /// `f32.ne`
    F32Ne,
    /// `f32.lt`
    F32Lt,
    /// `f32.gt`
    F32Gt,
    /// `f32.le`
    F32Le,
    /// `f32.ge`
    F32Ge,
    /// `f64.eq`
    F64Eq,
    /// `f64.ne`
    F64Ne,
    /// `f64.lt`
    F64Lt,
    /// `f64.gt`
    F64Gt,
    /// `f64.le`
    F64Le,
    /// `f64.ge`
    F64Ge,
    /// `i32.clz`
    I32Clz,
    /// `i32.ctz`
    I32Ctz,
    /// `i32.popcnt`
    I32Popcnt,
    /// `i32.add`
    I32Add,
    /// `i32.sub`
    I32Sub,
    /// `i32.mul`
    I32Mul,
    /// `i32.div_s`
    I32DivS,
    /// `i32.div_u`
    I32DivU,
    /// `i32.rem_s`
    I32RemS,
    /// `i32.rem_u`
    I32RemU,
    /// `i32.and`
    I32And,
    /// `i32.or`
    I32Or,
    /// `i32.xor`
    I32Xor,
    /// `i32.shl`
    I32Shl,
    /// `i32.shr_s`
    I32ShrS,
    /// `i32.shr_u`
    I32ShrU,
    /// `i32.rotl`
    I32Rotl,
    /// `i32.rotr`
    I32Rotr,
    /// `i64.clz`
    I64Clz,
    /// `i64.ctz`
    I64Ctz,
    /// `i64.popcnt`
    I64Popcnt,
    /// `i64.add`
    I64Add,
    /// `i64.sub`
    I64Sub,
    /// `i64.mul`
    I64Mul,
    /// `i64.div_s`
    I64DivS,
    /// `i64.div_u`
    I64DivU,
    /// `i64.rem_s`
    I64RemS,
    /// `i64.rem_u`
    I64RemU,
    /// `i64.and`
    I64And,
    /// `i64.or`
    I64Or,
    /// `i64.xor`
    I64Xor,
    /// `i64.shl`
    I64Shl,
    /// `i64.shr_s`
    I64ShrS,
    /// `i64.shr_u`
    I64ShrU,
    /// `i64.rotl`
    I64Rotl,
    /// `i64.rotr`
    I64Rotr,
    /// `f32.abs`
    F32Abs,
    /// `f32.neg`
    F32Neg,
    /// `f32.ceil`
    F32Ceil,
    /// `f32.floor`
    F32Floor,
    /// `f32.trunc`
    F32Trunc,
    /// `f32.nearest`
    F32Nearest,
    /// `f32.sqrt`
    F32Sqrt,
    /// `f32.add`
    F32Add,
    /// `f32.sub`
    F32Sub,
    /// `f32.mul`
    F32Mul,
    /// `f32.div`
    F32Div,
    /// `f32.min`
    F32Min,
    /// `f32.max`
    F32Max,
    /// `f32.copysign`
    F32Copysign,
    /// `f64.abs`
    F64Abs,
    /// `f64.neg`
    F64Neg,
    /// `f64.ceil`
    F64Ceil,
    /// `f64.floor`
    F64Floor,
    /// `f64.trunc`
    F64Trunc,
    /// `f64.nearest`
    F64Nearest,
    /// `f64.sqrt`
    F64Sqrt,
    /// `f64.add`
    F64Add,
    /// `f64.sub`
    F64Sub,
    /// `f64.mul`
    F64Mul,
    /// `f64.div`
    F64Div,
    /// `f64.min`
    F64Min,
    /// `f64.max`
    F64Max,
    /// `f64.copysign`
    F64Copysign,
    /// `i32.wrap_i64`
    I32WrapI64,
    /// `i32.trunc_f32_s`
    I32TruncF32S,
    /// `i32.trunc_f32_u`
    I32TruncF32U,
    /// `i32.trunc_f64_s`
    I32TruncF64S,
    /// `i32.trunc_f64_u`
    I32TruncF64U,
    /// `i64.extend_i32_s`
    I64ExtendI32S,
    /// `i64.extend_i32_u`
    I64ExtendI32U,
    /// `i64.trunc_f32_s`
    I64TruncF32S,
    /// `i64.trunc_f32_u`
    I64TruncF32U,
    /// `i64.trunc_f64_s`
    I64TruncF64S,
    /// `i64.trunc_f64_u`
    I64TruncF64U,
    /// `f32.convert_i32_s`
    F32ConvertI32S,
    /// `f32.convert_i32_u`
    F32ConvertI32U,
    /// `f32.convert_i64_s`
    F32ConvertI64S,
    /// `f32.convert_i64_u`
    F32ConvertI64U,
    /// `f32.demote_f64`
    F32DemoteF64,
    /// `f64.convert_i32_s`
    F64ConvertI32S,
    /// `f64.convert_i32_u`
    F64ConvertI32U,
    /// `f64.convert_i64_s`
    F64ConvertI64S,
    /// `f64.convert_i64_u`
    F64ConvertI64U,
    /// `f64.promote_f32`
    F64PromoteF32,
    /// `i32.reinterpret_f32`
    I32ReinterpretF32,
    /// `i64.reinterpret_f64`
    I64ReinterpretF64,
    /// `f32.reinterpret_i32`
    F32ReinterpretI32,
    /// `f64.reinterpret_i64`
    F64ReinterpretI64,
    /// `i32.extend8_s`
    I32Extend8S,
    /// `i32.extend16_s`
    I32Extend16S,
    /// `i64.extend8_s`
    I64Extend8S,
    /// `i64.extend16_s`
    I64Extend16S,
    /// `i64.extend32_s`
    I64Extend32S,
}

/// What follows an opcode in the bytecode.
#[derive(Clone, Copy, Debug, PartialEq, Eq, Structural)]
pub enum WasmOperand {
    /// Nothing.
    Plain,
    /// A block signature: one byte.
    BlockType,
    /// One unsigned LEB128 integer: a label, or an index.
    Index,
    /// A vector of labels and a default label.
    BrTable,
    /// A type index and a table index.
    CallIndirect,
    /// An alignment hint and an offset.
    MemArg,
    /// One signed LEB128 integer.
    Integer,
    /// Four bytes.
    Bytes4,
    /// Eight bytes.
    Bytes8,
}

impl WasmOpcode {
    /// The byte that encodes the opcode.
    pub open spec fn code(self) -> u8 {
        match self {
            WasmOpcode::Unreachable => 0x00,
            WasmOpcode::Nop => 0x01,
            WasmOpcode::Block => 0x02,
            WasmOpcode::Loop => 0x03,
            WasmOpcode::If => 0x04,
            WasmOpcode::Else => 0x05,
            WasmOpcode::End => 0x0B,
            WasmOpcode::Br => 0x0C,
            WasmOpcode::BrIf => 0x0D,
            WasmOpcode::BrTable => 0x0E,
            WasmOpcode::Return => 0x0F,
            WasmOpcode::Call => 0x10,
            WasmOpcode::CallIndirect => 0x11,
            WasmOpcode::Drop => 0x1A,
            WasmOpcode::Select => 0x1B,
            WasmOpcode::LocalGet => 0x20,
            WasmOpcode::LocalSet => 0x21,
            WasmOpcode::LocalTee => 0x22,
            WasmOpcode::GlobalGet => 0x23,
            WasmOpcode::GlobalSet => 0x24,
            WasmOpcode::I32Load => 0x28,
            WasmOpcode::I64Load => 0x29,
            WasmOpcode::F32Load => 0x2A,
            WasmOpcode::F64Load => 0x2B,
            WasmOpcode::I32Load8S => 0x2C,
            WasmOpcode::I32Load8U => 0x2D,
            WasmOpcode::I32Load16S => 0x2E,
            WasmOpcode::I32Load16U => 0x2F,
            WasmOpcode::I64Load8S => 0x30,
            WasmOpcode::I64Load8U => 0x31,
            WasmOpcode::I64Load16S => 0x32,
            WasmOpcode::I64Load16U => 0x33,
            WasmOpcode::I64Load32S => 0x34,
            WasmOpcode::I64Load32U => 0x35,
            WasmOpcode::I32Store => 0x36,
            WasmOpcode::I64Store => 0x37,
            WasmOpcode::F32Store => 0x38,
            WasmOpcode::F64Store => 0x39,
            WasmOpcode::I32Store8 => 0x3A,
            WasmOpcode::I32Store16 => 0x3B,
            WasmOpcode::I64Store8 => 0x3C,
            WasmOpcode::I64Store16 => 0x3D,
            WasmOpcode::I64Store32 => 0x3E,
            WasmOpcode::MemorySize => 0x3F,
            WasmOpcode::MemoryGrow => 0x40,
            WasmOpcode::I32Const => 0x41,
            WasmOpcode::I64Const => 0x42,
            WasmOpcode::F32Const => 0x43,
            WasmOpcode::F64Const => 0x44,
            WasmOpcode::I32Eqz => 0x45,
            WasmOpcode::I32Eq => 0x46,
            WasmOpcode::I32Ne => 0x47,
            WasmOpcode::I32LtS => 0x48,
            WasmOpcode::I32LtU => 0x49,
            WasmOpcode::I32GtS => 0x4A,
            WasmOpcode::I32GtU => 0x4B,
            WasmOpcode::I32LeS => 0x4C,
            WasmOpcode::I32LeU => 0x4D,
            WasmOpcode::I32GeS => 0x4E,
            WasmOpcode::I32GeU => 0x4F,
            WasmOpcode::I64Eqz => 0x50,
            WasmOpcode::I64Eq => 0x51,
            WasmOpcode::I64Ne => 0x52,
            WasmOpcode::I64LtS => 0x53,
            WasmOpcode::I64LtU => 0x54,
            WasmOpcode::I64GtS => 0x55,
            WasmOpcode::I64GtU => 0x56,
            WasmOpcode::I64LeS => 0x57,
            WasmOpcode::I64LeU => 0x58,
            WasmOpcode::I64GeS => 0x59,
            WasmOpcode::I64GeU => 0x5A,
            WasmOpcode::F32Eq => 0x5B,
            WasmOpcode::F32Ne => 0x5C,
            WasmOpcode::F32Lt => 0x5D,
            WasmOpcode::F32Gt => 0x5E,
            WasmOpcode::F32Le => 0x5F,
            WasmOpcode::F32Ge => 0x60,
            WasmOpcode::F64Eq => 0x61,
            WasmOpcode::F64Ne => 0x62,
            WasmOpcode::F64Lt => 0x63,
            WasmOpcode::F64Gt => 0x64,
            WasmOpcode::F64Le => 0x65,
            WasmOpcode::F64Ge => 0x66,
            WasmOpcode::I32Clz => 0x67,
            WasmOpcode::I32Ctz => 0x68,
            WasmOpcode::I32Popcnt => 0x69,
            WasmOpcode::I32Add => 0x6A,
            WasmOpcode::I32Sub => 0x6B,
            WasmOpcode::I32Mul => 0x6C,
            WasmOpcode::I32DivS => 0x6D,
            WasmOpcode::I32DivU => 0x6E,
            WasmOpcode::I32RemS => 0x6F,
            WasmOpcode::I32RemU => 0x70,
            WasmOpcode::I32And => 0x71,
            WasmOpcode::I32Or => 0x72,
            WasmOpcode::I32Xor => 0x73,
            WasmOpcode::I32Shl => 0x74,
            WasmOpcode::I32ShrS => 0x75,
            WasmOpcode::I32ShrU => 0x76,
            WasmOpcode::I32Rotl => 0x77,
            WasmOpcode::I32Rotr => 0x78,
            WasmOpcode::I64Clz => 0x79,
            WasmOpcode::I64Ctz => 0x7A,
            WasmOpcode::I64Popcnt => 0x7B,
            WasmOpcode::I64Add => 0x7C,
            WasmOpcode::I64Sub => 0x7D,
            WasmOpcode::I64Mul => 0x7E,
            WasmOpcode::I64DivS => 0x7F,
            WasmOpcode::I64DivU => 0x80,
            WasmOpcode::I64RemS => 0x81,
            WasmOpcode::I64RemU => 0x82,
            WasmOpcode::I64And => 0x83,
            WasmOpcode::I64Or => 0x84,
            WasmOpcode::I64Xor => 0x85,
            WasmOpcode::I64Shl => 0x86,
            WasmOpcode::I64ShrS => 0x87,
            WasmOpcode::I64ShrU => 0x88,
            WasmOpcode::I64Rotl => 0x89,
            WasmOpcode::I64Rotr => 0x8A,
            WasmOpcode::F32Abs => 0x8B,
            WasmOpcode::F32Neg => 0x8C,
            WasmOpcode::F32Ceil => 0x8D,
            WasmOpcode::F32Floor => 0x8E,
            WasmOpcode::F32Trunc => 0x8F,
            WasmOpcode::F32Nearest => 0x90,
            WasmOpcode::F32Sqrt => 0x91,
            WasmOpcode::F32Add => 0x92,
            WasmOpcode::F32Sub => 0x93,
            WasmOpcode::F32Mul => 0x94,
            WasmOpcode::F32Div => 0x95,
            WasmOpcode::F32Min => 0x96,
            WasmOpcode::F32Max => 0x97,
            WasmOpcode::F32Copysign => 0x98,
            WasmOpcode::F64Abs => 0x99,
            WasmOpcode::F64Neg => 0x9A,
            WasmOpcode::F64Ceil => 0x9B,
            WasmOpcode::F64Floor => 0x9C,
            WasmOpcode::F64Trunc => 0x9D,
            WasmOpcode::F64Nearest => 0x9E,
            WasmOpcode::F64Sqrt => 0x9F,
            WasmOpcode::F64Add => 0xA0,
            WasmOpcode::F64Sub => 0xA1,
            WasmOpcode::F64Mul => 0xA2,
            WasmOpcode::F64Div => 0xA3,
            WasmOpcode::F64Min => 0xA4,
            WasmOpcode::F64Max => 0xA5,
            WasmOpcode::F64Copysign => 0xA6,
            WasmOpcode::I32WrapI64 => 0xA7,
            WasmOpcode::I32TruncF32S => 0xA8,
            WasmOpcode::I32TruncF32U => 0xA9,
            WasmOpcode::I32TruncF64S => 0xAA,
            WasmOpcode::I32TruncF64U => 0xAB,
            WasmOpcode::I64ExtendI32S => 0xAC,
            WasmOpcode::I64ExtendI32U => 0xAD,
            WasmOpcode::I64TruncF32S => 0xAE,
            WasmOpcode::I64TruncF32U => 0xAF,
            WasmOpcode::I64TruncF64S => 0xB0,
            WasmOpcode::I64TruncF64U => 0xB1,
            WasmOpcode::F32ConvertI32S => 0xB2,
            WasmOpcode::F32ConvertI32U => 0xB3,
            WasmOpcode::F32ConvertI64S => 0xB4,
            WasmOpcode::F32ConvertI64U => 0xB5,
            WasmOpcode::F32DemoteF64 => 0xB6,
            WasmOpcode::F64ConvertI32S => 0xB7,
            WasmOpcode::F64ConvertI32U => 0xB8,
            WasmOpcode::F64ConvertI64S => 0xB9,
            WasmOpcode::F64ConvertI64U => 0xBA,
            WasmOpcode::F64PromoteF32 => 0xBB,
            WasmOpcode::I32ReinterpretF32 => 0xBC,
            WasmOpcode::I64ReinterpretF64 => 0xBD,
            WasmOpcode::F32ReinterpretI32 => 0xBE,
            WasmOpcode::F64ReinterpretI64 => 0xBF,
            WasmOpcode::I32Extend8S => 0xC0,
            WasmOpcode::I32Extend16S => 0xC1,
            WasmOpcode::I64Extend8S => 0xC2,
            WasmOpcode::I64Extend16S => 0xC3,
            WasmOpcode::I64Extend32S => 0xC4,
        }
    }

    /// The byte that encodes the opcode.
    pub fn to_u8(self) -> (r: u8)
        ensures
            r == self.code(),
    {
        match self {
            WasmOpcode::Unreachable => 0x00,
            WasmOpcode::Nop => 0x01,
            WasmOpcode::Block => 0x02,
            WasmOpcode::Loop => 0x03,
            WasmOpcode::If => 0x04,
            WasmOpcode::Else => 0x05,
            WasmOpcode::End => 0x0B,
            WasmOpcode::Br => 0x0C,
            WasmOpcode::BrIf => 0x0D,
            WasmOpcode::BrTable => 0x0E,
            WasmOpcode::Return => 0x0F,
            WasmOpcode::Call => 0x10,
            WasmOpcode::CallIndirect => 0x11,
            WasmOpcode::Drop => 0x1A,
            WasmOpcode::Select => 0x1B,
            WasmOpcode::LocalGet => 0x20,
            WasmOpcode::LocalSet => 0x21,
            WasmOpcode::LocalTee => 0x22,
            WasmOpcode::GlobalGet => 0x23,
            WasmOpcode::GlobalSet => 0x24,
            WasmOpcode::I32Load => 0x28,
            WasmOpcode::I64Load => 0x29,
            WasmOpcode::F32Load => 0x2A,
            WasmOpcode::F64Load => 0x2B,
            WasmOpcode::I32Load8S => 0x2C,
            WasmOpcode::I32Load8U => 0x2D,
            WasmOpcode::I32Load16S => 0x2E,
            WasmOpcode::I32Load16U => 0x2F,
            WasmOpcode::I64Load8S => 0x30,
            WasmOpcode::I64Load8U => 0x31,
            WasmOpcode::I64Load16S => 0x32,
            WasmOpcode::I64Load16U => 0x33,
            WasmOpcode::I64Load32S => 0x34,
            WasmOpcode::I64Load32U => 0x35,
            WasmOpcode::I32Store => 0x36,
            WasmOpcode::I64Store => 0x37,
            WasmOpcode::F32Store => 0x38,
            WasmOpcode::F64Store => 0x39,
            WasmOpcode::I32Store8 => 0x3A,
            WasmOpcode::I32Store16 => 0x3B,
            WasmOpcode::I64Store8 => 0x3C,
            WasmOpcode::I64Store16 => 0x3D,
            WasmOpcode::I64Store32 => 0x3E,
            WasmOpcode::MemorySize => 0x3F,
            WasmOpcode::MemoryGrow => 0x40,
            WasmOpcode::I32Const => 0x41,
            WasmOpcode::I64Const => 0x42,
            WasmOpcode::F32Const => 0x43,
            WasmOpcode::F64Const => 0x44,
            WasmOpcode::I32Eqz => 0x45,
            WasmOpcode::I32Eq => 0x46,
            WasmOpcode::I32Ne => 0x47,
            WasmOpcode::I32LtS => 0x48,
            WasmOpcode::I32LtU => 0x49,
            WasmOpcode::I32GtS => 0x4A,
            WasmOpcode::I32GtU => 0x4B,
            WasmOpcode::I32LeS => 0x4C,
            WasmOpcode::I32LeU => 0x4D,
            WasmOpcode::I32GeS => 0x4E,
            WasmOpcode::I32GeU => 0x4F,
            WasmOpcode::I64Eqz => 0x50,
            WasmOpcode::I64Eq => 0x51,
            WasmOpcode::I64Ne => 0x52,
            WasmOpcode::I64LtS => 0x53,
            WasmOpcode::I64LtU => 0x54,
            WasmOpcode::I64GtS => 0x55,
            WasmOpcode::I64GtU => 0x56,
            WasmOpcode::I64LeS => 0x57,
            WasmOpcode::I64LeU => 0x58,
            WasmOpcode::I64GeS => 0x59,
            WasmOpcode::I64GeU => 0x5A,
            WasmOpcode::F32Eq => 0x5B,
            WasmOpcode::F32Ne => 0x5C,
            WasmOpcode::F32Lt => 0x5D,
            WasmOpcode::F32Gt => 0x5E,
            WasmOpcode::F32Le => 0x5F,
            WasmOpcode::F32Ge => 0x60,
            WasmOpcode::F64Eq => 0x61,
            WasmOpcode::F64Ne => 0x62,
            WasmOpcode::F64Lt => 0x63,
            WasmOpcode::F64Gt => 0x64,
            WasmOpcode::F64Le => 0x65,
            WasmOpcode::F64Ge => 0x66,
            WasmOpcode::I32Clz => 0x67,
            WasmOpcode::I32Ctz => 0x68,
            WasmOpcode::I32Popcnt => 0x69,
            WasmOpcode::I32Add => 0x6A,
            WasmOpcode::I32Sub => 0x6B,
            WasmOpcode::I32Mul => 0x6C,
            WasmOpcode::I32DivS => 0x6D,
            WasmOpcode::I32DivU => 0x6E,
            WasmOpcode::I32RemS => 0x6F,
            WasmOpcode::I32RemU => 0x70,
            WasmOpcode::I32And => 0x71,
            WasmOpcode::I32Or => 0x72,
            WasmOpcode::I32Xor => 0x73,
            WasmOpcode::I32Shl => 0x74,
            WasmOpcode::I32ShrS => 0x75,
            WasmOpcode::I32ShrU => 0x76,
            WasmOpcode::I32Rotl => 0x77,
            WasmOpcode::I32Rotr => 0x78,
            WasmOpcode::I64Clz => 0x79,
            WasmOpcode::I64Ctz => 0x7A,
            WasmOpcode::I64Popcnt => 0x7B,
            WasmOpcode::I64Add => 0x7C,
            WasmOpcode::I64Sub => 0x7D,
            WasmOpcode::I64Mul => 0x7E,
            WasmOpcode::I64DivS => 0x7F,
            WasmOpcode::I64DivU => 0x80,
            WasmOpcode::I64RemS => 0x81,
            WasmOpcode::I64RemU => 0x82,
            WasmOpcode::I64And => 0x83,
            WasmOpcode::I64Or => 0x84,
            WasmOpcode::I64Xor => 0x85,
            WasmOpcode::I64Shl => 0x86,
            WasmOpcode::I64ShrS => 0x87,
            WasmOpcode::I64ShrU => 0x88,
            WasmOpcode::I64Rotl => 0x89,
            WasmOpcode::I64Rotr => 0x8A,
            WasmOpcode::F32Abs => 0x8B,
            WasmOpcode::F32Neg => 0x8C,
            WasmOpcode::F32Ceil => 0x8D,
            WasmOpcode::F32Floor => 0x8E,
            WasmOpcode::F32Trunc => 0x8F,
            WasmOpcode::F32Nearest => 0x90,
            WasmOpcode::F32Sqrt => 0x91,
            WasmOpcode::F32Add => 0x92,
            WasmOpcode::F32Sub => 0x93,
            WasmOpcode::F32Mul => 0x94,
            WasmOpcode::F32Div => 0x95,
            WasmOpcode::F32Min => 0x96,
            WasmOpcode::F32Max => 0x97,
            WasmOpcode::F32Copysign => 0x98,
            WasmOpcode::F64Abs => 0x99,
            WasmOpcode::F64Neg => 0x9A,
            WasmOpcode::F64Ceil => 0x9B,
            WasmOpcode::F64Floor => 0x9C,
            WasmOpcode::F64Trunc => 0x9D,
            WasmOpcode::F64Nearest => 0x9E,
            WasmOpcode::F64Sqrt => 0x9F,
            WasmOpcode::F64Add => 0xA0,
            WasmOpcode::F64Sub => 0xA1,
            WasmOpcode::F64Mul => 0xA2,
            WasmOpcode::F64Div => 0xA3,
            WasmOpcode::F64Min => 0xA4,
            WasmOpcode::F64Max => 0xA5,
            WasmOpcode::F64Copysign => 0xA6,
            WasmOpcode::I32WrapI64 => 0xA7,
            WasmOpcode::I32TruncF32S => 0xA8,
            WasmOpcode::I32TruncF32U => 0xA9,
            WasmOpcode::I32TruncF64S => 0xAA,
            WasmOpcode::I32TruncF64U => 0xAB,
            WasmOpcode::I64ExtendI32S => 0xAC,
            WasmOpcode::I64ExtendI32U => 0xAD,
            WasmOpcode::I64TruncF32S => 0xAE,
            WasmOpcode::I64TruncF32U => 0xAF,
            WasmOpcode::I64TruncF64S => 0xB0,
            WasmOpcode::I64TruncF64U => 0xB1,
            WasmOpcode::F32ConvertI32S => 0xB2,
            WasmOpcode::F32ConvertI32U => 0xB3,
            WasmOpcode::F32ConvertI64S => 0xB4,
            WasmOpcode::F32ConvertI64U => 0xB5,
            WasmOpcode::F32DemoteF64 => 0xB6,
            WasmOpcode::F64ConvertI32S => 0xB7,
            WasmOpcode::F64ConvertI32U => 0xB8,
            WasmOpcode::F64ConvertI64S => 0xB9,
            WasmOpcode::F64ConvertI64U => 0xBA,
            WasmOpcode::F64PromoteF32 => 0xBB,
            WasmOpcode::I32ReinterpretF32 => 0xBC,
            WasmOpcode::I64ReinterpretF64 => 0xBD,
            WasmOpcode::F32ReinterpretI32 => 0xBE,
            WasmOpcode::F64ReinterpretI64 => 0xBF,
            WasmOpcode::I32Extend8S => 0xC0,
            WasmOpcode::I32Extend16S => 0xC1,
            WasmOpcode::I64Extend8S => 0xC2,
            WasmOpcode::I64Extend16S => 0xC3,
            WasmOpcode::I64Extend32S => 0xC4,
        }
    }

    /// The opcode that a byte encodes, if it encodes one.
    pub open spec fn spec_from_u8(b: u8) -> Option<WasmOpcode> {
        if exists|op: WasmOpcode| op.code() == b {
            Some(choose|op: WasmOpcode| op.code() == b)
        } else {
            None
        }
    }

    /// Decodes an opcode byte: the opcode whose code is `b`, or `None` where
    /// no opcode has that code.
    pub fn from_u8(b: u8) -> (r: Option<WasmOpcode>)
        ensures
            r == Self::spec_from_u8(b),
            r matches Some(op) ==> op.code() == b,
            r is None ==> forall|op: WasmOpcode| op.code() != b,
    {
        let r = match b {
            0x00 => Some(WasmOpcode::Unreachable),
            0x01 => Some(WasmOpcode::Nop),
            0x02 => Some(WasmOpcode::Block),
            0x03 => Some(WasmOpcode::Loop),
            0x04 => Some(WasmOpcode::If),
            0x05 => Some(WasmOpcode::Else),
            0x0B => Some(WasmOpcode::End),
            0x0C => Some(WasmOpcode::Br),
            0x0D => Some(WasmOpcode::BrIf),
            0x0E => Some(WasmOpcode::BrTable),
            0x0F => Some(WasmOpcode::Return),
            0x10 => Some(WasmOpcode::Call),
            0x11 => Some(WasmOpcode::CallIndirect),
            0x1A => Some(WasmOpcode::Drop),
            0x1B => Some(WasmOpcode::Select),
            0x20 => Some(WasmOpcode::LocalGet),
            0x21 => Some(WasmOpcode::LocalSet),
            0x22 => Some(WasmOpcode::LocalTee),
            0x23 => Some(WasmOpcode::GlobalGet),
            0x24 => Some(WasmOpcode::GlobalSet),
            0x28 => Some(WasmOpcode::I32Load),
            0x29 => Some(WasmOpcode::I64Load),
            0x2A => Some(WasmOpcode::F32Load),
            0x2B => Some(WasmOpcode::F64Load),
            0x2C => Some(WasmOpcode::I32Load8S),
            0x2D => Some(WasmOpcode::I32Load8U),
            0x2E => Some(WasmOpcode::I32Load16S),
            0x2F => Some(WasmOpcode::I32Load16U),
            0x30 => Some(WasmOpcode::I64Load8S),
            0x31 => Some(WasmOpcode::I64Load8U),
            0x32 => Some(WasmOpcode::I64Load16S),
            0x33 => Some(WasmOpcode::I64Load16U),
            0x34 => Some(WasmOpcode::I64Load32S),
            0x35 => Some(WasmOpcode::I64Load32U),
            0x36 => Some(WasmOpcode::I32Store),
            0x37 => Some(WasmOpcode::I64Store),
            0x38 => Some(WasmOpcode::F32Store),
            0x39 => Some(WasmOpcode::F64Store),
            0x3A => Some(WasmOpcode::I32Store8),
            0x3B => Some(WasmOpcode::I32Store16),
            0x3C => Some(WasmOpcode::I64Store8),
            0x3D => Some(WasmOpcode::I64Store16),
            0x3E => Some(WasmOpcode::I64Store32),
            0x3F => Some(WasmOpcode::MemorySize),
            0x40 => Some(WasmOpcode::MemoryGrow),
            0x41 => Some(WasmOpcode::I32Const),
            0x42 => Some(WasmOpcode::I64Const),
            0x43 => Some(WasmOpcode::F32Const),
            0x44 => Some(WasmOpcode::F64Const),
            0x45 => Some(WasmOpcode::I32Eqz),
            0x46 => Some(WasmOpcode::I32Eq),
            0x47 => Some(WasmOpcode::I32Ne),
            0x48 => Some(WasmOpcode::I32LtS),
            0x49 => Some(WasmOpcode::I32LtU),
            0x4A => Some(WasmOpcode::I32GtS),
            0x4B => Some(WasmOpcode::I32GtU),
            0x4C => Some(WasmOpcode::I32LeS),
            0x4D => Some(WasmOpcode::I32LeU),
            0x4E => Some(WasmOpcode::I32GeS),
            0x4F => Some(WasmOpcode::I32GeU),
            0x50 => Some(WasmOpcode::I64Eqz),
            0x51 => Some(WasmOpcode::I64Eq),
            0x52 => Some(WasmOpcode::I64Ne),
            0x53 => Some(WasmOpcode::I64LtS),
            0x54 => Some(WasmOpcode::I64LtU),
            0x55 => Some(WasmOpcode::I64GtS),
            0x56 => Some(WasmOpcode::I64GtU),
            0x57 => Some(WasmOpcode::I64LeS),
            0x58 => Some(WasmOpcode::I64LeU),
            0x59 => Some(WasmOpcode::I64GeS),
            0x5A => Some(WasmOpcode::I64GeU),
            0x5B => Some(WasmOpcode::F32Eq),
            0x5C => Some(WasmOpcode::F32Ne),
            0x5D => Some(WasmOpcode::F32Lt),
            0x5E => Some(WasmOpcode::F32Gt),
            0x5F => Some(WasmOpcode::F32Le),
            0x60 => Some(WasmOpcode::F32Ge),
            0x61 => Some(WasmOpcode::F64Eq),
            0x62 => Some(WasmOpcode::F64Ne),
            0x63 => Some(WasmOpcode::F64Lt),
            0x64 => Some(WasmOpcode::F64Gt),
            0x65 => Some(WasmOpcode::F64Le),
            0x66 => Some(WasmOpcode::F64Ge),
            0x67 => Some(WasmOpcode::I32Clz),
            0x68 => Some(WasmOpcode::I32Ctz),
            0x69 => Some(WasmOpcode::I32Popcnt),
            0x6A => Some(WasmOpcode::I32Add),
            0x6B => Some(WasmOpcode::I32Sub),
            0x6C => Some(WasmOpcode::I32Mul),
            0x6D => Some(WasmOpcode::I32DivS),
            0x6E => Some(WasmOpcode::I32DivU),
            0x6F => Some(WasmOpcode::I32RemS),
            0x70 => Some(WasmOpcode::I32RemU),
            0x71 => Some(WasmOpcode::I32And),
            0x72 => Some(WasmOpcode::I32Or),
            0x73 => Some(WasmOpcode::I32Xor),
            0x74 => Some(WasmOpcode::I32Shl),
            0x75 => Some(WasmOpcode::I32ShrS),
            0x76 => Some(WasmOpcode::I32ShrU),
            0x77 => Some(WasmOpcode::I32Rotl),
            0x78 => Some(WasmOpcode::I32Rotr),
            0x79 => Some(WasmOpcode::I64Clz),
            0x7A => Some(WasmOpcode::I64Ctz),
            0x7B => Some(WasmOpcode::I64Popcnt),
            0x7C => Some(WasmOpcode::I64Add),
            0x7D => Some(WasmOpcode::I64Sub),
            0x7E => Some(WasmOpcode::I64Mul),
            0x7F => Some(WasmOpcode::I64DivS),
            0x80 => Some(WasmOpcode::I64DivU),
            0x81 => Some(WasmOpcode::I64RemS),
            0x82 => Some(WasmOpcode::I64RemU),
            0x83 => Some(WasmOpcode::I64And),
            0x84 => Some(WasmOpcode::I64Or),
            0x85 => Some(WasmOpcode::I64Xor),
            0x86 => Some(WasmOpcode::I64Shl),
            0x87 => Some(WasmOpcode::I64ShrS),
            0x88 => Some(WasmOpcode::I64ShrU),
            0x89 => Some(WasmOpcode::I64Rotl),
            0x8A => Some(WasmOpcode::I64Rotr),
            0x8B => Some(WasmOpcode::F32Abs),
            0x8C => Some(WasmOpcode::F32Neg),
            0x8D => Some(WasmOpcode::F32Ceil),
            0x8E => Some(WasmOpcode::F32Floor),
            0x8F => Some(WasmOpcode::F32Trunc),
            0x90 => Some(WasmOpcode::F32Nearest),
            0x91 => Some(WasmOpcode::F32Sqrt),
            0x92 => Some(WasmOpcode::F32Add),
            0x93 => Some(WasmOpcode::F32Sub),
            0x94 => Some(WasmOpcode::F32Mul),
            0x95 => Some(WasmOpcode::F32Div),
            0x96 => Some(WasmOpcode::F32Min),
            0x97 => Some(WasmOpcode::F32Max),
            0x98 => Some(WasmOpcode::F32Copysign),
            0x99 => Some(WasmOpcode::F64Abs),
            0x9A => Some(WasmOpcode::F64Neg),
            0x9B => Some(WasmOpcode::F64Ceil),
            0x9C => Some(WasmOpcode::F64Floor),
            0x9D => Some(WasmOpcode::F64Trunc),
            0x9E => Some(WasmOpcode::F64Nearest),
            0x9F => Some(WasmOpcode::F64Sqrt),
            0xA0 => Some(WasmOpcode::F64Add),
            0xA1 => Some(WasmOpcode::F64Sub),
            0xA2 => Some(WasmOpcode::F64Mul),
            0xA3 => Some(WasmOpcode::F64Div),
            0xA4 => Some(WasmOpcode::F64Min),
            0xA5 => Some(WasmOpcode::F64Max),
            0xA6 => Some(WasmOpcode::F64Copysign),
            0xA7 => Some(WasmOpcode::I32WrapI64),
            0xA8 => Some(WasmOpcode::I32TruncF32S),
            0xA9 => Some(WasmOpcode::I32TruncF32U),
            0xAA => Some(WasmOpcode::I32TruncF64S),
            0xAB => Some(WasmOpcode::I32TruncF64U),
            0xAC => Some(WasmOpcode::I64ExtendI32S),
            0xAD => Some(WasmOpcode::I64ExtendI32U),
            0xAE => Some(WasmOpcode::I64TruncF32S),
            0xAF => Some(WasmOpcode::I64TruncF32U),
            0xB0 => Some(WasmOpcode::I64TruncF64S),
            0xB1 => Some(WasmOpcode::I64TruncF64U),
            0xB2 => Some(WasmOpcode::F32ConvertI32S),
            0xB3 => Some(WasmOpcode::F32ConvertI32U),
            0xB4 => Some(WasmOpcode::F32ConvertI64S),
            0xB5 => Some(WasmOpcode::F32ConvertI64U),
            0xB6 => Some(WasmOpcode::F32DemoteF64),
            0xB7 => Some(WasmOpcode::F64ConvertI32S),
            0xB8 => Some(WasmOpcode::F64ConvertI32U),
            0xB9 => Some(WasmOpcode::F64ConvertI64S),
            0xBA => Some(WasmOpcode::F64ConvertI64U),
            0xBB => Some(WasmOpcode::F64PromoteF32),
            0xBC => Some(WasmOpcode::I32ReinterpretF32),
            0xBD => Some(WasmOpcode::I64ReinterpretF64),
            0xBE => Some(WasmOpcode::F32ReinterpretI32),
            0xBF => Some(WasmOpcode::F64ReinterpretI64),
            0xC0 => Some(WasmOpcode::I32Extend8S),
            0xC1 => Some(WasmOpcode::I32Extend16S),
            0xC2 => Some(WasmOpcode::I64Extend8S),
            0xC3 => Some(WasmOpcode::I64Extend16S),
            0xC4 => Some(WasmOpcode::I64Extend32S),
            _ => None,
        };
        proof {
            Self::lemma_code_injective();
            if let Some(found) = r {
                assert(found.code() == b);
                let chosen = choose|op: WasmOpcode| op.code() == b;
                assert(chosen.code() == found.code());
            }
            if r is None {
                assert forall|op: WasmOpcode| op.code() != b by {
                    Self::lemma_code_range(op);
                }
            }
        }
        r
    }

    /// Distinct opcodes have distinct codes.
    pub proof fn lemma_code_injective()
        ensures
            forall|a: WasmOpcode, b: WasmOpcode| a.code() == b.code() ==> a == b,
    {
    }

    /// The codes that are in use.
    pub proof fn lemma_code_range(op: WasmOpcode)
        ensures
            op.code() <= 0x05 || 0x0B <= op.code() <= 0x11 || 0x1A <= op.code() <= 0x1B || 0x20
                <= op.code() <= 0x24 || 0x28 <= op.code() <= 0xC4,
    {
    }

    /// The kind of immediates that follow the opcode.
    pub open spec fn spec_operand(self) -> WasmOperand {
        let c = self.code();
        if 0x02 <= c <= 0x04 {
            WasmOperand::BlockType
        } else if c == 0x0C || c == 0x0D || c == 0x10 || (0x20 <= c <= 0x24) || c == 0x3F || c
            == 0x40 {
            WasmOperand::Index
        } else if c == 0x0E {
            WasmOperand::BrTable
        } else if c == 0x11 {
            WasmOperand::CallIndirect
        } else if 0x28 <= c <= 0x3E {
            WasmOperand::MemArg
        } else if c == 0x41 || c == 0x42 {
            WasmOperand::Integer
        } else if c == 0x43 {
            WasmOperand::Bytes4
        } else if c == 0x44 {
            WasmOperand::Bytes8
        } else {
            WasmOperand::Plain
        }
    }

    /// The kind of immediates that follow the opcode.
    pub fn operand(self) -> (r: WasmOperand)
        ensures
            r == self.spec_operand(),
    {
        let c: u8 = self.to_u8();
        if 0x02 <= c && c <= 0x04 {
            WasmOperand::BlockType
        } else if c == 0x0C || c == 0x0D || c == 0x10 || (0x20 <= c && c <= 0x24) || c == 0x3F
            || c == 0x40 {
            WasmOperand::Index
        } else if c == 0x0E {
            WasmOperand::BrTable
        } else if c == 0x11 {
            WasmOperand::CallIndirect
        } else if 0x28 <= c && c <= 0x3E {
            WasmOperand::MemArg
        } else if c == 0x41 || c == 0x42 {
            WasmOperand::Integer
        } else if c == 0x43 {
            WasmOperand::Bytes4
        } else if c == 0x44 {
            WasmOperand::Bytes8
        } else {
            WasmOperand::Plain
        }
    }

    /// How many cells the instruction takes from the operand stack. For the
    /// instructions whose effect depends on their context (blocks, `else`,
    /// `end`, calls) this is the part that does not: the condition of `if`,
    /// the table index of `call_indirect`.
    pub open spec fn spec_pops(self) -> nat {
        let c = self.code();
        if c == 0x04 || c == 0x0D || c == 0x0E || c == 0x11 || c == 0x1A || c == 0x21 || c == 0x22
            || c == 0x24 || (0x28 <= c <= 0x35) || c == 0x40 || c == 0x45 || c == 0x50 || (0x67
            <= c <= 0x69) || (0x79 <= c <= 0x7B) || (0x8B <= c <= 0x91) || (0x99 <= c <= 0x9F)
            || 0xA7 <= c {
            1
        } else if (0x36 <= c <= 0x3E) || (0x46 <= c <= 0x4F) || (0x51 <= c <= 0x66) || (0x6A <= c
            <= 0x78) || (0x7C <= c <= 0x8A) || (0x92 <= c <= 0x98) || (0xA0 <= c <= 0xA6) {
            2
        } else if c == 0x1B {
            3
        } else {
            0
        }
    }

    /// How many cells the instruction takes from the operand stack.
    pub fn pops(self) -> (r: usize)
        ensures
            r == self.spec_pops(),
            r <= 3,
    {
        let c: u8 = self.to_u8();
        if c == 0x04 || c == 0x0D || c == 0x0E || c == 0x11 || c == 0x1A || c == 0x21 || c == 0x22
            || c == 0x24 || (0x28 <= c && c <= 0x35) || c == 0x40 || c == 0x45 || c == 0x50 || (
        0x67 <= c && c <= 0x69) || (0x79 <= c && c <= 0x7B) || (0x8B <= c && c <= 0x91) || (0x99
            <= c && c <= 0x9F) || 0xA7 <= c {
            1
        } else if (0x36 <= c && c <= 0x3E) || (0x46 <= c && c <= 0x4F) || (0x51 <= c && c
            <= 0x66) || (0x6A <= c && c <= 0x78) || (0x7C <= c && c <= 0x8A) || (0x92 <= c && c
            <= 0x98) || (0xA0 <= c && c <= 0xA6) {
            2
        } else if c == 0x1B {
            3
        } else {
            0
        }
    }

    /// How many cells the instruction puts on the operand stack, apart from
    /// what depends on its context (the results of a call or of a block).
    pub open spec fn spec_pushes(self) -> nat {
        let c = self.code();
        if c == 0x1B || c == 0x20 || c == 0x22 || c == 0x23 || (0x28 <= c <= 0x35) || 0x3F <= c {
            1
        } else {
            0
        }
    }

    /// How many cells the instruction puts on the operand stack.
    pub fn pushes(self) -> (r: usize)
        ensures
            r == self.spec_pushes(),
            r <= 1,
    {
        let c: u8 = self.to_u8();
        if c == 0x1B || c == 0x20 || c == 0x22 || c == 0x23 || (0x28 <= c && c <= 0x35) || 0x3F
            <= c {
            1
        } else {
            0
        }
    }
}

} // verus!
