//! The types of a module and of its loading, gathered under one path.

pub use crate::block::{BlockInstType, WasmBlockContext, WasmBlockInfo};
pub use crate::error::{WasmDecodeError, WasmRuntimeError};
pub use crate::leb128::Leb128Stream;
pub use crate::loader::WasmLoader;
pub use crate::memory::{WasmMemory, WASM_MAX_PAGES, WASM_PAGE_SIZE};
pub use crate::module::{
    WasmExport, WasmExportKind, WasmFunction, WasmFunctionBody, WasmGlobal, WasmImport, WasmModule,
    WasmType,
};
pub use crate::opcode::{WasmOpcode, WasmOperand};
pub use crate::stack::WasmStackValue;
pub use crate::types::{WasmBlockType, WasmLimit, WasmMemArg, WasmValType, WasmValue};
pub use crate::wasmintr::{WasmCodeBlock, WasmFlow, WasmInterpreter};
