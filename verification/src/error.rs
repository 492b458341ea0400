//! The two error domains: loading a module, and running its code.

use vstd::prelude::*;

verus! {

/// Why a binary module could not be loaded.
#[derive(Clone, Copy, Debug, PartialEq, Eq, Structural)]
pub enum WasmDecodeError {
    /// The input ended inside an item.
    UnexpectedEof,
    /// The first four bytes are not the module magic.
    BadExecutable,
    /// The version field is not 1.
    BadVersion,
    /// A byte or an item stands where another one was required.
    UnexpectedToken,
    /// An index or a count is outside the table it refers to.
    InvalidParameter,
    /// A function body holds an unknown or misplaced instruction.
    InvalidBytecode,
    /// A section id outside the known set.
    UnsupportedSection,
    /// The linker refused an import.
    DynamicLinkError,
}

/// Why an invocation was aborted.
#[derive(Clone, Copy, Debug, PartialEq, Eq, Structural)]
pub enum WasmRuntimeError {
    /// A load or store reaches past the end of the linear memory.
    OutOfBounds,
    /// The module has no linear memory.
    OutOfMemory,
    /// Division or remainder by zero.
    DivideByZero,
    /// Signed division of the smallest integer by minus one.
    IntegerOverflow,
    /// A value of the wrong kind or count at the embedding boundary.
    InvalidParameter,
    /// The bytecode cannot be decoded or has no executable meaning here.
    InvalidBytecode,
    /// The operand stack, the block stack or the block table do not fit the code.
    InternalInconsistency,
    /// The instruction budget of the invocation is used up.
    BudgetExhausted,
}

} // verus!
