//! The untagged 64-bit cell of the operand stack.

use crate::types::{WasmValType, WasmValue};
use vstd::prelude::*;

verus! {

/// One cell of the operand stack or of the locals: 64 bits without a type tag.
/// The instruction that consumes a cell decides how it is read: as 32 or 64
/// bits, signed or unsigned. A cell keeps all its 64 bits while it is stored.
#[derive(Clone, Copy, Debug, PartialEq, Eq, Structural)]
pub struct WasmStackValue {
    pub bits: u64,
}

impl WasmStackValue {
    /// The cell of a truth value: 1 or 0.
    pub open spec fn spec_from_bool(v: bool) -> WasmStackValue {
        WasmStackValue { bits: if v { 1 } else { 0 } }
    }

    /// The cell of a signed 32-bit integer: its sign-extension to 64 bits.
    pub open spec fn spec_from_i32(v: i32) -> WasmStackValue {
        WasmStackValue { bits: (v as i64) as u64 }
    }

    /// The cell of an unsigned 32-bit integer: its zero-extension to 64 bits.
    pub open spec fn spec_from_u32(v: u32) -> WasmStackValue {
        WasmStackValue { bits: v as u64 }
    }

    /// The cell of a signed 64-bit integer: its two's-complement bits.
    pub open spec fn spec_from_i64(v: i64) -> WasmStackValue {
        WasmStackValue { bits: v as u64 }
    }

    /// The cell of an unsigned 64-bit integer.
    pub open spec fn spec_from_u64(v: u64) -> WasmStackValue {
        WasmStackValue { bits: v }
    }

    /// The cell of a machine-sized integer.
    pub open spec fn spec_from_usize(v: usize) -> WasmStackValue {
        WasmStackValue { bits: v as u64 }
    }

    /// The low 32 bits, unsigned.
    pub open spec fn spec_get_u32(&self) -> u32 {
        self.bits as u32
    }

    /// The low 32 bits, signed.
    pub open spec fn spec_get_i32(&self) -> i32 {
        self.bits as i32
    }

    /// All 64 bits, unsigned.
    pub open spec fn spec_get_u64(&self) -> u64 {
        self.bits
    }

    /// All 64 bits, signed.
    pub open spec fn spec_get_i64(&self) -> i64 {
        self.bits as i64
    }

    /// Whether the low 32 bits are not all zero.
    pub open spec fn spec_get_bool(&self) -> bool {
        self.spec_get_i32() != 0
    }

    /// The low 8 bits.
    pub open spec fn spec_get_u8(&self) -> u8 {
        self.bits as u8
    }

    /// The low 16 bits.
    pub open spec fn spec_get_u16(&self) -> u16 {
        self.bits as u16
    }

    /// The boundary value that the cell stands for when it is read at a type.
    pub open spec fn spec_get_by_type(&self, val_type: WasmValType) -> WasmValue {
        match val_type {
            WasmValType::I32 => WasmValue::I32(self.spec_get_i32()),
            WasmValType::I64 => WasmValue::I64(self.spec_get_i64()),
            WasmValType::F32 => WasmValue::F32(self.spec_get_u32()),
            WasmValType::F64 => WasmValue::F64(self.spec_get_u64()),
        }
    }

    /// The cell that holds a boundary value; the absent value gives the zero
    /// cell.
    pub open spec fn spec_from_value(v: WasmValue) -> WasmStackValue {
        match v {
            WasmValue::Empty => Self::spec_from_i64(0),
            WasmValue::I32(v) => Self::spec_from_i32(v),
            WasmValue::I64(v) => Self::spec_from_i64(v),
            WasmValue::F32(v) => Self::spec_from_u32(v),
            WasmValue::F64(v) => Self::spec_from_u64(v),
        }
    }

    /// The cell of a truth value: 1 or 0.
    #[inline]
    pub fn from_bool(v: bool) -> (r: Self)
        ensures
            r == Self::spec_from_bool(v),
    {
        if v {
            Self::from_usize(1)
        } else {
            Self::from_usize(0)
        }
    }

    /// The cell of a machine-sized integer.
    #[inline]
    pub fn from_usize(v: usize) -> (r: Self)
        ensures
            r == Self::spec_from_usize(v),
    {
        WasmStackValue { bits: v as u64 }
    }

    /// The cell of a signed 32-bit integer: its sign-extension to 64 bits.
    #[inline]
    pub fn from_i32(v: i32) -> (r: Self)
        ensures
            r == Self::spec_from_i32(v),
    {
        WasmStackValue { bits: (v as i64) as u64 }
    }

    /// The cell of an unsigned 32-bit integer: its zero-extension to 64 bits.
    #[inline]
    pub fn from_u32(v: u32) -> (r: Self)
        ensures
            r == Self::spec_from_u32(v),
    {
        WasmStackValue { bits: v as u64 }
    }

    /// The cell of a signed 64-bit integer.
    #[inline]
    pub fn from_i64(v: i64) -> (r: Self)
        ensures
            r == Self::spec_from_i64(v),
    {
        WasmStackValue { bits: v as u64 }
    }

    /// The cell of an unsigned 64-bit integer.
    #[inline]
    pub fn from_u64(v: u64) -> (r: Self)
        ensures
            r == Self::spec_from_u64(v),
    {
        WasmStackValue { bits: v }
    }

    /// Whether the low 32 bits are not all zero.
    #[inline]
    pub fn get_bool(&self) -> (r: bool)
        ensures
            r == self.spec_get_bool(),
    {
        self.get_i32() != 0
    }

    /// The low 32 bits, signed.
    #[inline]
    pub fn get_i32(&self) -> (r: i32)
        ensures
            r == self.spec_get_i32(),
    {
        self.bits as i32
    }

    /// The low 32 bits, unsigned.
    #[inline]
    pub fn get_u32(&self) -> (r: u32)
        ensures
            r == self.spec_get_u32(),
    {
        self.bits as u32
    }

    /// All 64 bits, signed.
    #[inline]
    pub fn get_i64(&self) -> (r: i64)
        ensures
            r == self.spec_get_i64(),
    {
        self.bits as i64
    }

    /// All 64 bits, unsigned.
    #[inline]
    pub fn get_u64(&self) -> (r: u64)
        ensures
            r == self.spec_get_u64(),
    {
        self.bits
    }

    /// The low 8 bits.
    #[inline]
    pub fn get_u8(&self) -> (r: u8)
        ensures
            r == self.spec_get_u8(),
    {
        self.bits as u8
    }

    /// The low 16 bits.
    #[inline]
    pub fn get_u16(&self) -> (r: u16)
        ensures
            r == self.spec_get_u16(),
    {
        self.bits as u16
    }

    /// Reads the cell at a type and packages it as a boundary value.
    pub fn get_by_type(&self, val_type: WasmValType) -> (r: WasmValue)
        ensures
            r == self.spec_get_by_type(val_type),
    {
        match val_type {
            WasmValType::I32 => WasmValue::I32(self.get_i32()),
            WasmValType::I64 => WasmValue::I64(self.get_i64()),
            WasmValType::F32 => WasmValue::F32(self.get_u32()),
            WasmValType::F64 => WasmValue::F64(self.get_u64()),
        }
    }

    /// A cell written as one type and read back as the same type gives the
    /// value that was written; a cell written as a 32-bit integer holds its
    /// sign- or zero-extension.
    pub proof fn lemma_round_trip()
        ensures
            forall|v: i32| #[trigger] Self::spec_from_i32(v).spec_get_i32() == v,
            forall|v: u32| #[trigger] Self::spec_from_u32(v).spec_get_u32() == v,
            forall|v: i64| #[trigger] Self::spec_from_i64(v).spec_get_i64() == v,
            forall|v: u64| #[trigger] Self::spec_from_u64(v).spec_get_u64() == v,
            forall|v: i32| #[trigger] Self::spec_from_i32(v).spec_get_u32() == v as u32,
            forall|v: u32| #[trigger] Self::spec_from_u32(v).spec_get_i32() == v as i32,
            forall|v: i32| #[trigger] Self::spec_from_i32(v).spec_get_i64() == v,
            forall|v: u32| #[trigger] Self::spec_from_u32(v).spec_get_u64() == v,
            forall|v: bool| #[trigger] Self::spec_from_bool(v).spec_get_bool() == v,
    {
        lemma_casts();
    }
}

/// Widening a number and cutting it back gives the number.
proof fn lemma_casts()
    by (bit_vector)
    ensures
        forall|v: i32| #[trigger] (((v as i64) as u64) as i32) == v,
        forall|v: u32| #[trigger] ((v as u64) as u32) == v,
        forall|v: i64| #[trigger] ((v as u64) as i64) == v,
        forall|v: i32| #[trigger] (((v as i64) as u64) as u32) == v as u32,
        forall|v: u32| #[trigger] ((v as u64) as i32) == v as i32,
        forall|v: i32| #[trigger] (((v as i64) as u64) as i64) == v as i64,
        (1u64 as i32) == 1i32,
        (0u64 as i32) == 0i32,
{
}

impl From<bool> for WasmStackValue {
    fn from(v: bool) -> (r: WasmStackValue) {
        Self::from_bool(v)
    }
}

impl vstd::std_specs::convert::FromSpecImpl<bool> for WasmStackValue {
    open spec fn obeys_from_spec() -> bool {
        true
    }

    open spec fn from_spec(v: bool) -> WasmStackValue {
        WasmStackValue::spec_from_bool(v)
    }
}

impl From<usize> for WasmStackValue {
    fn from(v: usize) -> (r: WasmStackValue) {
        Self::from_usize(v)
    }
}

impl vstd::std_specs::convert::FromSpecImpl<usize> for WasmStackValue {
    open spec fn obeys_from_spec() -> bool {
        true
    }

    open spec fn from_spec(v: usize) -> WasmStackValue {
        WasmStackValue::spec_from_usize(v)
    }
}

impl From<u32> for WasmStackValue {
    fn from(v: u32) -> (r: WasmStackValue) {
        Self::from_u32(v)
    }
}

impl vstd::std_specs::convert::FromSpecImpl<u32> for WasmStackValue {
    open spec fn obeys_from_spec() -> bool {
        true
    }

    open spec fn from_spec(v: u32) -> WasmStackValue {
        WasmStackValue::spec_from_u32(v)
    }
}

impl From<i32> for WasmStackValue {
    fn from(v: i32) -> (r: WasmStackValue) {
        Self::from_i32(v)
    }
}

impl vstd::std_specs::convert::FromSpecImpl<i32> for WasmStackValue {
    open spec fn obeys_from_spec() -> bool {
        true
    }

    open spec fn from_spec(v: i32) -> WasmStackValue {
        WasmStackValue::spec_from_i32(v)
    }
}

impl From<u64> for WasmStackValue {
    fn from(v: u64) -> (r: WasmStackValue) {
        Self::from_u64(v)
    }
}

impl vstd::std_specs::convert::FromSpecImpl<u64> for WasmStackValue {
    open spec fn obeys_from_spec() -> bool {
        true
    }

    open spec fn from_spec(v: u64) -> WasmStackValue {
        WasmStackValue::spec_from_u64(v)
    }
}

impl From<i64> for WasmStackValue {
    fn from(v: i64) -> (r: WasmStackValue) {
        Self::from_i64(v)
    }
}

impl vstd::std_specs::convert::FromSpecImpl<i64> for WasmStackValue {
    open spec fn obeys_from_spec() -> bool {
        true
    }

    open spec fn from_spec(v: i64) -> WasmStackValue {
        WasmStackValue::spec_from_i64(v)
    }
}

impl From<WasmValue> for WasmStackValue {
    fn from(v: WasmValue) -> (r: WasmStackValue) {
        match v {
            WasmValue::Empty => Self::from_i64(0),
            WasmValue::I32(v) => Self::from_i32(v),
            WasmValue::I64(v) => Self::from_i64(v),
            WasmValue::F32(v) => Self::from_u32(v),
            WasmValue::F64(v) => Self::from_u64(v),
        }
    }
}

impl vstd::std_specs::convert::FromSpecImpl<WasmValue> for WasmStackValue {
    open spec fn obeys_from_spec() -> bool {
        true
    }

    open spec fn from_spec(v: WasmValue) -> WasmStackValue {
        WasmStackValue::spec_from_value(v)
    }
}

} // verus!
