//! An embeddable interpreter for WebAssembly 1.0 modules (integer instructions
//! and the sign-extension operators): a byte-stream reader, a module loader, a
//! block pre-analyzer and a bytecode interpreter over a sandboxed linear memory.
//!
//! `leb128` reads the binary format; `loader` builds a `module` from a blob,
//! with the help of `analyzer`, which builds the `block` table of every
//! function body; `wasmintr` runs the bytecode as `semantics` says, with the
//! operators of `numeric` on the cells of `stack` and on the `memory`;
//! `bounds` shows that the operand stack stays as small as the block table
//! says. `wasm` gathers the types under one path.

pub mod error;
pub mod types;
pub mod stack;
pub mod numeric;
pub mod leb128;
pub mod opcode;
pub mod memory;
pub mod block;
pub mod module;
pub mod analyzer;
pub mod semantics;
pub mod bounds;
pub mod wasmintr;
pub mod loader;
pub mod wasm;
