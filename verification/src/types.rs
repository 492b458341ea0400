//! Value types, boundary values and the small records of the binary format.

use crate::error::WasmRuntimeError;
use vstd::prelude::*;

verus! {

/// The four value types of the format. Only `I32` and `I64` have executable
/// meaning; the other two are carried through signatures.
#[derive(Clone, Copy, Debug, PartialEq, Eq, Structural)]
pub enum WasmValType {
    I32,
    I64,
    F32,
    F64,
}

impl WasmValType {
    /// The value type that a byte of the binary format stands for.
    pub open spec fn spec_from_u8(b: u8) -> Option<WasmValType> {
        if b == 0x7F {
            Some(WasmValType::I32)
        } else if b == 0x7E {
            Some(WasmValType::I64)
        } else if b == 0x7D {
            Some(WasmValType::F32)
        } else if b == 0x7C {
            Some(WasmValType::F64)
        } else {
            None
        }
    }

    /// Decodes a value-type byte.
    pub fn from_u8(b: u8) -> (r: Option<WasmValType>)
        ensures
            r == Self::spec_from_u8(b),
    {
        if b == 0x7F {
            Some(WasmValType::I32)
        } else if b == 0x7E {
            Some(WasmValType::I64)
        } else if b == 0x7D {
            Some(WasmValType::F32)
        } else if b == 0x7C {
            Some(WasmValType::F64)
        } else {
            None
        }
    }
}

/// The signature of a block: no result, or one value.
#[derive(Clone, Copy, Debug, PartialEq, Eq, Structural)]
pub enum WasmBlockType {
    Empty,
    I32,
    I64,
    F32,
    F64,
}

impl WasmBlockType {
    /// The block signature that a byte of the binary format stands for.
    pub open spec fn spec_from_u8(b: u8) -> Option<WasmBlockType> {
        if b == 0x40 {
            Some(WasmBlockType::Empty)
        } else if b == 0x7F {
            Some(WasmBlockType::I32)
        } else if b == 0x7E {
            Some(WasmBlockType::I64)
        } else if b == 0x7D {
            Some(WasmBlockType::F32)
        } else if b == 0x7C {
            Some(WasmBlockType::F64)
        } else {
            None
        }
    }

    /// Decodes a block-signature byte.
    pub fn from_u8(b: u8) -> (r: Option<WasmBlockType>)
        ensures
            r == Self::spec_from_u8(b),
    {
        if b == 0x40 {
            Some(WasmBlockType::Empty)
        } else if b == 0x7F {
            Some(WasmBlockType::I32)
        } else if b == 0x7E {
            Some(WasmBlockType::I64)
        } else if b == 0x7D {
            Some(WasmBlockType::F32)
        } else if b == 0x7C {
            Some(WasmBlockType::F64)
        } else {
            None
        }
    }

    /// The number of values that a block of this signature leaves: 0 or 1.
    pub open spec fn spec_arity(self) -> nat {
        if self == WasmBlockType::Empty {
            0
        } else {
            1
        }
    }

    /// The number of values that a block of this signature leaves.
    pub fn arity(self) -> (r: usize)
        ensures
            r == self.spec_arity(),
    {
        match self {
            WasmBlockType::Empty => 0,
            _ => 1,
        }
    }
}

/// A value at the embedding boundary: an argument or a result of an
/// invocation. Floating-point values are carried as their bit patterns.
#[derive(Clone, Copy, Debug, PartialEq, Eq, Structural)]
pub enum WasmValue {
    Empty,
    I32(i32),
    I64(i64),
    F32(u32),
    F64(u64),
}

impl WasmValue {
    /// The zero value of a type.
    pub open spec fn spec_default_for(val_type: WasmValType) -> WasmValue {
        match val_type {
            WasmValType::I32 => WasmValue::I32(0),
            WasmValType::I64 => WasmValue::I64(0),
            WasmValType::F32 => WasmValue::F32(0),
            WasmValType::F64 => WasmValue::F64(0),
        }
    }

    /// The zero value of a type: what a declared local starts as.
    pub fn default_for(val_type: WasmValType) -> (r: WasmValue)
        ensures
            r == Self::spec_default_for(val_type),
    {
        match val_type {
            WasmValType::I32 => WasmValue::I32(0),
            WasmValType::I64 => WasmValue::I64(0),
            WasmValType::F32 => WasmValue::F32(0),
            WasmValType::F64 => WasmValue::F64(0),
        }
    }

    /// Whether this is the absent value.
    pub fn is_empty(&self) -> (r: bool)
        ensures
            r == (*self == WasmValue::Empty),
    {
        match self {
            WasmValue::Empty => true,
            _ => false,
        }
    }

    /// The type of the value, if it has one.
    pub fn val_type(&self) -> (r: Option<WasmValType>)
        ensures
            r == (match *self {
                WasmValue::Empty => None,
                WasmValue::I32(_) => Some(WasmValType::I32),
                WasmValue::I64(_) => Some(WasmValType::I64),
                WasmValue::F32(_) => Some(WasmValType::F32),
                WasmValue::F64(_) => Some(WasmValType::F64),
            }),
    {
        match self {
            WasmValue::Empty => None,
            WasmValue::I32(_) => Some(WasmValType::I32),
            WasmValue::I64(_) => Some(WasmValType::I64),
            WasmValue::F32(_) => Some(WasmValType::F32),
            WasmValue::F64(_) => Some(WasmValType::F64),
        }
    }

    /// The 32-bit integer held, signed. Any other kind is an invalid parameter.
    pub fn get_i32(&self) -> (r: Result<i32, WasmRuntimeError>)
        ensures
            r == (match *self {
                WasmValue::I32(v) => Ok::<i32, WasmRuntimeError>(v),
                _ => Err(WasmRuntimeError::InvalidParameter),
            }),
    {
        match self {
            WasmValue::I32(v) => Ok(*v),
            _ => Err(WasmRuntimeError::InvalidParameter),
        }
    }

    /// The 32-bit integer held, read as unsigned. Any other kind is an invalid
    /// parameter.
    pub fn get_u32(&self) -> (r: Result<u32, WasmRuntimeError>)
        ensures
            r == (match *self {
                WasmValue::I32(v) => Ok::<u32, WasmRuntimeError>(v as u32),
                _ => Err(WasmRuntimeError::InvalidParameter),
            }),
    {
        match self {
            WasmValue::I32(v) => Ok(*v as u32),
            _ => Err(WasmRuntimeError::InvalidParameter),
        }
    }

    /// The 64-bit integer held, signed. Any other kind is an invalid parameter.
    pub fn get_i64(&self) -> (r: Result<i64, WasmRuntimeError>)
        ensures
            r == (match *self {
                WasmValue::I64(v) => Ok::<i64, WasmRuntimeError>(v),
                _ => Err(WasmRuntimeError::InvalidParameter),
            }),
    {
        match self {
            WasmValue::I64(v) => Ok(*v),
            _ => Err(WasmRuntimeError::InvalidParameter),
        }
    }

    /// The 64-bit integer held, read as unsigned. Any other kind is an invalid
    /// parameter.
    pub fn get_u64(&self) -> (r: Result<u64, WasmRuntimeError>)
        ensures
            r == (match *self {
                WasmValue::I64(v) => Ok::<u64, WasmRuntimeError>(v as u64),
                _ => Err(WasmRuntimeError::InvalidParameter),
            }),
    {
        match self {
            WasmValue::I64(v) => Ok(*v as u64),
            _ => Err(WasmRuntimeError::InvalidParameter),
        }
    }
}

impl From<i32> for WasmValue {
    fn from(v: i32) -> (r: WasmValue) {
        WasmValue::I32(v)
    }
}

impl vstd::std_specs::convert::FromSpecImpl<i32> for WasmValue {
    open spec fn obeys_from_spec() -> bool {
        true
    }

    open spec fn from_spec(v: i32) -> WasmValue {
        WasmValue::I32(v)
    }
}

impl From<u32> for WasmValue {
    fn from(v: u32) -> (r: WasmValue) {
        WasmValue::I32(v as i32)
    }
}

impl vstd::std_specs::convert::FromSpecImpl<u32> for WasmValue {
    open spec fn obeys_from_spec() -> bool {
        true
    }

    open spec fn from_spec(v: u32) -> WasmValue {
        WasmValue::I32(v as i32)
    }
}

impl From<i64> for WasmValue {
    fn from(v: i64) -> (r: WasmValue) {
        WasmValue::I64(v)
    }
}

impl vstd::std_specs::convert::FromSpecImpl<i64> for WasmValue {
    open spec fn obeys_from_spec() -> bool {
        true
    }

    open spec fn from_spec(v: i64) -> WasmValue {
        WasmValue::I64(v)
    }
}

impl From<u64> for WasmValue {
    fn from(v: u64) -> (r: WasmValue) {
        WasmValue::I64(v as i64)
    }
}

impl vstd::std_specs::convert::FromSpecImpl<u64> for WasmValue {
    open spec fn obeys_from_spec() -> bool {
        true
    }

    open spec fn from_spec(v: u64) -> WasmValue {
        WasmValue::I64(v as i64)
    }
}

/// The two immediates of a memory instruction.
#[derive(Clone, Copy, Debug, PartialEq, Eq, Structural)]
pub struct WasmMemArg {
    /// The alignment hint; advisory, never enforced.
    pub align: u32,
    /// The constant added to the base address.
    pub offset: u32,
}

impl WasmMemArg {
    /// The immediates with this offset and this alignment hint.
    pub fn new(offset: u32, align: u32) -> (r: WasmMemArg)
        ensures
            r.offset == offset,
            r.align == align,
    {
        WasmMemArg { align, offset }
    }

    /// The effective address of an access: the base plus the constant offset,
    /// without wrap-around.
    pub open spec fn spec_offset_by(&self, base: u32) -> int {
        self.offset + base
    }

    /// The effective address of an access whose base address is `base`.
    pub fn offset_by(&self, base: u32) -> (r: u64)
        ensures
            r == self.spec_offset_by(base),
    {
        self.offset as u64 + base as u64
    }
}

/// The size limits of a memory, in pages.
#[derive(Clone, Copy, Debug, PartialEq, Eq, Structural)]
pub struct WasmLimit {
    pub min: u32,
    /// `None` where the module sets no upper bound.
    pub max: Option<u32>,
}

} // verus!
