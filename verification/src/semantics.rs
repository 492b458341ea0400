//! What the interpreter computes, as a mathematical machine: one activation
//! is a program counter, an operand stack, the locals and a stack of open
//! blocks; one step decodes the instruction at the program counter and gives
//! the next state, the end of the activation, a trap or a call.

use crate::block::{block_at, WasmBlockContext};
use crate::error::WasmRuntimeError;
use crate::leb128::{le_value, spec_read_sint, spec_read_uint};
use crate::memory::{in_bounds, store_le, WASM_PAGE_SIZE};
use crate::module::WasmModuleView;
use crate::numeric::{is_binary, is_unary, spec_binary, spec_unary};
use crate::opcode::WasmOpcode;
use crate::stack::WasmStackValue;
use crate::types::{WasmBlockType, WasmMemArg, WasmValType, WasmValue};
use vstd::prelude::*;

verus! {

/// The state of one activation.
#[verifier::ext_equal]
pub struct WasmFrame {
    /// The offset of the next instruction.
    pub pc: int,
    /// The operand stack, top last.
    pub stack: Seq<WasmStackValue>,
    /// The parameters and the declared locals.
    pub locals: Seq<WasmStackValue>,
    /// The open blocks, innermost last, each by the position that keys the
    /// block table.
    pub blocks: Seq<usize>,
}

/// What one instruction does.
pub enum WasmStep {
    /// Execution goes on in this state.
    Next(WasmFrame, WasmModuleView),
    /// The activation ends; the result is taken from the stack of this state.
    Done(WasmFrame),
    /// The invocation is aborted.
    Trap(WasmRuntimeError),
    /// The function of this index is called; the state is that of the caller
    /// after the immediate, the arguments still on its stack.
    Invoke(usize, WasmFrame),
}

/// How an activation ends.
pub struct WasmExecOutcome {
    /// The operand stack at the end, or the trap.
    pub result: Result<Seq<WasmStackValue>, WasmRuntimeError>,
    /// The module at the end. After a trap it holds every write made before.
    pub module: WasmModuleView,
    /// The instruction budget that is left.
    pub budget: nat,
}

/// How an invocation ends.
pub struct WasmOutcome {
    /// The value returned, or the trap.
    pub result: Result<WasmValue, WasmRuntimeError>,
    /// The module at the end. After a trap it holds every write made before.
    pub module: WasmModuleView,
    /// The instruction budget that is left.
    pub budget: nat,
}

/// What the host answers to a call: a function of the handle of the import,
/// of the module and of the arguments.
pub type WasmHostModel = spec_fn(usize, WasmModuleView, Seq<WasmValue>) -> Result<
    WasmValue,
    WasmRuntimeError,
>;

/// The opcode at `pc`, if a byte is there and encodes one.
pub open spec fn code_opcode(code: Seq<u8>, pc: int) -> Option<WasmOpcode> {
    if 0 <= pc < code.len() {
        WasmOpcode::spec_from_u8(code[pc])
    } else {
        None
    }
}

/// The unsigned LEB128 integer at `pc` and the position after it.
pub open spec fn code_uint(code: Seq<u8>, pc: int) -> Option<(u64, int)> {
    match spec_read_uint(code, pc) {
        Ok(x) => Some(x),
        Err(_) => None,
    }
}

/// The signed LEB128 integer at `pc` and the position after it.
pub open spec fn code_sint(code: Seq<u8>, pc: int) -> Option<(i64, int)> {
    match spec_read_sint(code, pc) {
        Ok(x) => Some(x),
        Err(_) => None,
    }
}

/// The alignment hint and the offset at `pc`, each cut to 32 bits, and the
/// position after them.
pub open spec fn code_memarg(code: Seq<u8>, pc: int) -> Option<(WasmMemArg, int)> {
    match code_uint(code, pc) {
        None => None,
        Some((align, p)) => match code_uint(code, p) {
            None => None,
            Some((offset, q)) => Some((WasmMemArg { align: align as u32, offset: offset as u32 }, q)),
        },
    }
}

/// The position after `n` unsigned LEB128 integers from `pc` on.
pub open spec fn code_skip(code: Seq<u8>, pc: int, n: nat) -> Option<int>
    decreases n,
{
    if n == 0 {
        Some(pc)
    } else {
        match code_uint(code, pc) {
            None => None,
            Some((_, p)) => code_skip(code, p, (n - 1) as nat),
        }
    }
}

/// The zero cell.
pub open spec fn zero_cell() -> WasmStackValue {
    WasmStackValue { bits: 0 }
}

/// The stack cut down to `n` cells, or filled up to `n` cells with zero
/// cells.
pub open spec fn stack_resize(stack: Seq<WasmStackValue>, n: nat) -> Seq<WasmStackValue> {
    if n <= stack.len() {
        stack.take(n as int)
    } else {
        stack + Seq::new((n - stack.len()) as nat, |i: int| zero_cell())
    }
}

/// The state with `v` pushed.
pub open spec fn push(f: WasmFrame, v: WasmStackValue) -> WasmFrame {
    WasmFrame { stack: f.stack.push(v), ..f }
}

/// The state without the top cell.
pub open spec fn pop(f: WasmFrame) -> WasmFrame {
    WasmFrame { stack: f.stack.drop_last(), ..f }
}

/// A branch to the block `depth` levels out (0 is the innermost). The target
/// and every block inside it are closed; the operand stack is cut to the
/// depth it had at the entry of the target, keeping the top cell where the
/// target has a result; execution continues at the target's preferred
/// position.
pub open spec fn branch(blocks: Map<usize, WasmBlockContext>, f: WasmFrame, depth: usize) -> Result<
    WasmFrame,
    WasmRuntimeError,
> {
    if depth >= f.blocks.len() {
        Err(WasmRuntimeError::InternalInconsistency)
    } else {
        let keep = f.blocks.len() - depth - 1;
        match block_at(blocks, f.blocks[keep]) {
            None => Err(WasmRuntimeError::InternalInconsistency),
            Some(ctx) => if ctx.block_type == WasmBlockType::Empty {
                Ok(
                    WasmFrame {
                        pc: ctx.spec_preferred_target() as int,
                        stack: stack_resize(f.stack, ctx.stack_level as nat),
                        locals: f.locals,
                        blocks: f.blocks.take(keep),
                    },
                )
            } else if f.stack.len() == 0 {
                Err(WasmRuntimeError::InternalInconsistency)
            } else {
                Ok(
                    WasmFrame {
                        pc: ctx.spec_preferred_target() as int,
                        stack: stack_resize(f.stack.drop_last(), ctx.stack_level as nat).push(
                            f.stack.last(),
                        ),
                        locals: f.locals,
                        blocks: f.blocks.take(keep),
                    },
                )
            },
        }
    }
}

/// The step that is a branch.
pub open spec fn branch_step(
    blocks: Map<usize, WasmBlockContext>,
    m: WasmModuleView,
    f: WasmFrame,
    depth: usize,
) -> WasmStep {
    match branch(blocks, f, depth) {
        Ok(g) => WasmStep::Next(g, m),
        Err(e) => WasmStep::Trap(e),
    }
}

/// The structured control instructions. `f.pc` is the position after the
/// opcode.
pub open spec fn step_control(
    op: WasmOpcode,
    code: Seq<u8>,
    blocks: Map<usize, WasmBlockContext>,
    m: WasmModuleView,
    f: WasmFrame,
) -> WasmStep {
    match op {
        WasmOpcode::Nop => WasmStep::Next(f, m),
        WasmOpcode::Block | WasmOpcode::Loop => match code_uint(code, f.pc) {
            None => WasmStep::Trap(WasmRuntimeError::InvalidBytecode),
            Some((_, p)) => WasmStep::Next(
                WasmFrame { pc: p, blocks: f.blocks.push(p as usize), ..f },
                m,
            ),
        },
        WasmOpcode::If => match code_uint(code, f.pc) {
            None => WasmStep::Trap(WasmRuntimeError::InvalidBytecode),
            Some((_, p)) => if f.stack.len() == 0 {
                WasmStep::Trap(WasmRuntimeError::InternalInconsistency)
            } else if f.stack.last().spec_get_bool() {
                WasmStep::Next(
                    WasmFrame {
                        pc: p,
                        stack: f.stack.drop_last(),
                        locals: f.locals,
                        blocks: f.blocks.push(p as usize),
                    },
                    m,
                )
            } else {
                match block_at(blocks, p as usize) {
                    None => WasmStep::Trap(WasmRuntimeError::InternalInconsistency),
                    Some(ctx) => if ctx.else_position != 0 {
                        WasmStep::Next(
                            WasmFrame {
                                pc: ctx.else_position as int,
                                stack: f.stack.drop_last(),
                                locals: f.locals,
                                blocks: f.blocks.push(p as usize),
                            },
                            m,
                        )
                    } else {
                        WasmStep::Next(
                            WasmFrame {
                                pc: ctx.end_position as int,
                                stack: f.stack.drop_last(),
                                locals: f.locals,
                                blocks: f.blocks,
                            },
                            m,
                        )
                    },
                }
            },
        },
        WasmOpcode::Else => branch_step(blocks, m, f, 0),
        WasmOpcode::End => if f.blocks.len() == 0 {
            WasmStep::Done(f)
        } else {
            WasmStep::Next(WasmFrame { blocks: f.blocks.drop_last(), ..f }, m)
        },
        WasmOpcode::Br => match code_uint(code, f.pc) {
            None => WasmStep::Trap(WasmRuntimeError::InvalidBytecode),
            Some((depth, p)) => branch_step(blocks, m, WasmFrame { pc: p, ..f }, depth as usize),
        },
        WasmOpcode::BrIf => match code_uint(code, f.pc) {
            None => WasmStep::Trap(WasmRuntimeError::InvalidBytecode),
            Some((depth, p)) => if f.stack.len() == 0 {
                WasmStep::Trap(WasmRuntimeError::InternalInconsistency)
            } else if f.stack.last().spec_get_bool() {
                branch_step(blocks, m, pop(WasmFrame { pc: p, ..f }), depth as usize)
            } else {
                WasmStep::Next(pop(WasmFrame { pc: p, ..f }), m)
            },
        },
        WasmOpcode::BrTable => if f.stack.len() == 0 {
            WasmStep::Trap(WasmRuntimeError::InternalInconsistency)
        } else {
            match code_uint(code, f.pc) {
                None => WasmStep::Trap(WasmRuntimeError::InvalidBytecode),
                Some((count, p)) => {
                    let index = f.stack.last().spec_get_u32();
                    let skipped = if (index as u64) < count {
                        index as nat
                    } else {
                        count as nat
                    };
                    match code_skip(code, p, skipped) {
                        None => WasmStep::Trap(WasmRuntimeError::InvalidBytecode),
                        Some(q) => match code_uint(code, q) {
                            None => WasmStep::Trap(WasmRuntimeError::InvalidBytecode),
                            Some((depth, r)) => branch_step(
                                blocks,
                                m,
                                pop(WasmFrame { pc: r, ..f }),
                                depth as usize,
                            ),
                        },
                    }
                },
            }
        },
        WasmOpcode::Return => WasmStep::Done(f),
        _ => WasmStep::Trap(WasmRuntimeError::InvalidBytecode),
    }
}

/// `drop`, `select`, the instructions on locals and globals, and the
/// constants. `f.pc` is the position after the opcode.
pub open spec fn step_variable(op: WasmOpcode, code: Seq<u8>, m: WasmModuleView, f: WasmFrame) -> WasmStep {
    match op {
        WasmOpcode::Drop => if f.stack.len() == 0 {
            WasmStep::Next(f, m)
        } else {
            WasmStep::Next(pop(f), m)
        },
        WasmOpcode::Select => if f.stack.len() < 3 {
            WasmStep::Trap(WasmRuntimeError::InternalInconsistency)
        } else {
            let n = f.stack.len();
            let chosen = if f.stack[n - 1].spec_get_bool() {
                f.stack[n - 3]
            } else {
                f.stack[n - 2]
            };
            WasmStep::Next(WasmFrame { stack: f.stack.take(n - 3).push(chosen), ..f }, m)
        },
        WasmOpcode::LocalGet => match code_uint(code, f.pc) {
            None => WasmStep::Trap(WasmRuntimeError::InvalidBytecode),
            Some((i, p)) => if (i as usize) >= f.locals.len() {
                WasmStep::Trap(WasmRuntimeError::InternalInconsistency)
            } else {
                WasmStep::Next(push(WasmFrame { pc: p, ..f }, f.locals[i as usize as int]), m)
            },
        },
        WasmOpcode::LocalSet => match code_uint(code, f.pc) {
            None => WasmStep::Trap(WasmRuntimeError::InvalidBytecode),
            Some((i, p)) => if (i as usize) >= f.locals.len() || f.stack.len() == 0 {
                WasmStep::Trap(WasmRuntimeError::InternalInconsistency)
            } else {
                WasmStep::Next(
                    WasmFrame {
                        pc: p,
                        stack: f.stack.drop_last(),
                        locals: f.locals.update(i as usize as int, f.stack.last()),
                        blocks: f.blocks,
                    },
                    m,
                )
            },
        },
        WasmOpcode::LocalTee => match code_uint(code, f.pc) {
            None => WasmStep::Trap(WasmRuntimeError::InvalidBytecode),
            Some((i, p)) => if (i as usize) >= f.locals.len() || f.stack.len() == 0 {
                WasmStep::Trap(WasmRuntimeError::InternalInconsistency)
            } else {
                WasmStep::Next(
                    WasmFrame {
                        pc: p,
                        stack: f.stack,
                        locals: f.locals.update(i as usize as int, f.stack.last()),
                        blocks: f.blocks,
                    },
                    m,
                )
            },
        },
        WasmOpcode::GlobalGet => match code_uint(code, f.pc) {
            None => WasmStep::Trap(WasmRuntimeError::InvalidBytecode),
            Some((i, p)) => if (i as usize) >= m.globals.len() {
                WasmStep::Trap(WasmRuntimeError::InternalInconsistency)
            } else {
                WasmStep::Next(push(WasmFrame { pc: p, ..f }, m.globals[i as usize as int].value), m)
            },
        },
        WasmOpcode::GlobalSet => match code_uint(code, f.pc) {
            None => WasmStep::Trap(WasmRuntimeError::InvalidBytecode),
            Some((i, p)) => if (i as usize) >= m.globals.len() || f.stack.len() == 0 {
                WasmStep::Trap(WasmRuntimeError::InternalInconsistency)
            } else {
                WasmStep::Next(
                    pop(WasmFrame { pc: p, ..f }),
                    m.with_global(i as usize as int, f.stack.last()),
                )
            },
        },
        WasmOpcode::I32Const => match code_sint(code, f.pc) {
            None => WasmStep::Trap(WasmRuntimeError::InvalidBytecode),
            Some((v, p)) => WasmStep::Next(
                push(WasmFrame { pc: p, ..f }, WasmStackValue::spec_from_i32(v as i32)),
                m,
            ),
        },
        WasmOpcode::I64Const => match code_sint(code, f.pc) {
            None => WasmStep::Trap(WasmRuntimeError::InvalidBytecode),
            Some((v, p)) => WasmStep::Next(
                push(WasmFrame { pc: p, ..f }, WasmStackValue::spec_from_i64(v)),
                m,
            ),
        },
        _ => WasmStep::Trap(WasmRuntimeError::InvalidBytecode),
    }
}

/// The number of bytes that a load instruction reads; 0 for any other
/// opcode.
pub open spec fn load_size(op: WasmOpcode) -> nat {
    match op {
        WasmOpcode::I32Load8S | WasmOpcode::I32Load8U | WasmOpcode::I64Load8S | WasmOpcode::I64Load8U => 1,
        WasmOpcode::I32Load16S | WasmOpcode::I32Load16U | WasmOpcode::I64Load16S | WasmOpcode::I64Load16U => 2,
        WasmOpcode::I32Load | WasmOpcode::I64Load32S | WasmOpcode::I64Load32U => 4,
        WasmOpcode::I64Load => 8,
        _ => 0,
    }
}

/// The cell that a load instruction makes of the number `raw` that it read:
/// its sign- or zero-extension.
pub open spec fn load_cell(op: WasmOpcode, raw: nat) -> WasmStackValue {
    match op {
        WasmOpcode::I32Load => WasmStackValue::spec_from_u32(raw as u32),
        WasmOpcode::I64Load => WasmStackValue::spec_from_u64(raw as u64),
        WasmOpcode::I32Load8S => WasmStackValue::spec_from_i32(((raw as u8) as i8) as i32),
        WasmOpcode::I32Load8U => WasmStackValue::spec_from_u32((raw as u8) as u32),
        WasmOpcode::I32Load16S => WasmStackValue::spec_from_i32(((raw as u16) as i16) as i32),
        WasmOpcode::I32Load16U => WasmStackValue::spec_from_u32((raw as u16) as u32),
        WasmOpcode::I64Load8S => WasmStackValue::spec_from_i64(((raw as u8) as i8) as i64),
        WasmOpcode::I64Load8U => WasmStackValue::spec_from_u64((raw as u8) as u64),
        WasmOpcode::I64Load16S => WasmStackValue::spec_from_i64(((raw as u16) as i16) as i64),
        WasmOpcode::I64Load16U => WasmStackValue::spec_from_u64((raw as u16) as u64),
        WasmOpcode::I64Load32S => WasmStackValue::spec_from_i64(((raw as u32) as i32) as i64),
        WasmOpcode::I64Load32U => WasmStackValue::spec_from_u64((raw as u32) as u64),
        _ => zero_cell(),
    }
}

/// The number of bytes that a store instruction writes; 0 for any other
/// opcode.
pub open spec fn store_size(op: WasmOpcode) -> nat {
    match op {
        WasmOpcode::I32Store8 | WasmOpcode::I64Store8 => 1,
        WasmOpcode::I32Store16 | WasmOpcode::I64Store16 => 2,
        WasmOpcode::I32Store | WasmOpcode::I64Store32 => 4,
        WasmOpcode::I64Store => 8,
        _ => 0,
    }
}

/// The number that a store instruction writes: the low bits of the cell.
pub open spec fn store_operand(op: WasmOpcode, v: WasmStackValue) -> nat {
    match op {
        WasmOpcode::I32Store8 | WasmOpcode::I64Store8 => v.spec_get_u8() as nat,
        WasmOpcode::I32Store16 | WasmOpcode::I64Store16 => v.spec_get_u16() as nat,
        WasmOpcode::I32Store | WasmOpcode::I64Store32 => v.spec_get_u32() as nat,
        _ => v.spec_get_u64() as nat,
    }
}

/// The memory instructions. An access of `n` bytes at the effective address
/// `base + offset` is carried out only if it lies inside the memory;
/// otherwise the step traps `OutOfBounds`. `f.pc` is the position after the
/// opcode.
pub open spec fn step_memory(op: WasmOpcode, code: Seq<u8>, m: WasmModuleView, f: WasmFrame) -> WasmStep {
    if load_size(op) != 0 {
        match code_memarg(code, f.pc) {
            None => WasmStep::Trap(WasmRuntimeError::InvalidBytecode),
            Some((arg, p)) => if m.memories.len() == 0 {
                WasmStep::Trap(WasmRuntimeError::OutOfMemory)
            } else if f.stack.len() == 0 {
                WasmStep::Trap(WasmRuntimeError::InternalInconsistency)
            } else {
                let addr = arg.spec_offset_by(f.stack.last().spec_get_u32());
                if !in_bounds(m.memories[0].len(), addr, load_size(op)) {
                    WasmStep::Trap(WasmRuntimeError::OutOfBounds)
                } else {
                    WasmStep::Next(
                        WasmFrame {
                            pc: p,
                            stack: f.stack.drop_last().push(
                                load_cell(op, le_value(m.memories[0], addr, load_size(op))),
                            ),
                            locals: f.locals,
                            blocks: f.blocks,
                        },
                        m,
                    )
                }
            },
        }
    } else if store_size(op) != 0 {
        match code_memarg(code, f.pc) {
            None => WasmStep::Trap(WasmRuntimeError::InvalidBytecode),
            Some((arg, p)) => if m.memories.len() == 0 {
                WasmStep::Trap(WasmRuntimeError::OutOfMemory)
            } else if f.stack.len() < 2 {
                WasmStep::Trap(WasmRuntimeError::InternalInconsistency)
            } else {
                let n = f.stack.len();
                let addr = arg.spec_offset_by(f.stack[n - 2].spec_get_u32());
                if !in_bounds(m.memories[0].len(), addr, store_size(op)) {
                    WasmStep::Trap(WasmRuntimeError::OutOfBounds)
                } else {
                    WasmStep::Next(
                        WasmFrame {
                            pc: p,
                            stack: f.stack.take(n - 2),
                            locals: f.locals,
                            blocks: f.blocks,
                        },
                        m.with_memory(
                            store_le(
                                m.memories[0],
                                addr,
                                store_operand(op, f.stack[n - 1]),
                                store_size(op),
                            ),
                        ),
                    )
                }
            },
        }
    } else if op == WasmOpcode::MemorySize {
        match code_uint(code, f.pc) {
            None => WasmStep::Trap(WasmRuntimeError::InvalidBytecode),
            Some((_, p)) => if m.memories.len() == 0 {
                WasmStep::Trap(WasmRuntimeError::OutOfMemory)
            } else {
                WasmStep::Next(
                    push(
                        WasmFrame { pc: p, ..f },
                        WasmStackValue::spec_from_usize(
                            (m.memories[0].len() / (WASM_PAGE_SIZE as nat)) as usize,
                        ),
                    ),
                    m,
                )
            },
        }
    } else {
        WasmStep::Trap(WasmRuntimeError::InvalidBytecode)
    }
}

/// The integer operators. `f.pc` is the position after the opcode.
pub open spec fn step_numeric(op: WasmOpcode, m: WasmModuleView, f: WasmFrame) -> WasmStep {
    if is_unary(op) {
        if f.stack.len() == 0 {
            WasmStep::Trap(WasmRuntimeError::InternalInconsistency)
        } else {
            WasmStep::Next(
                WasmFrame { stack: f.stack.drop_last().push(spec_unary(op, f.stack.last())), ..f },
                m,
            )
        }
    } else if is_binary(op) {
        if f.stack.len() < 2 {
            WasmStep::Trap(WasmRuntimeError::InternalInconsistency)
        } else {
            let n = f.stack.len();
            match spec_binary(op, f.stack[n - 2], f.stack[n - 1]) {
                Err(e) => WasmStep::Trap(e),
                Ok(v) => WasmStep::Next(WasmFrame { stack: f.stack.take(n - 2).push(v), ..f }, m),
            }
        }
    } else {
        WasmStep::Trap(WasmRuntimeError::InvalidBytecode)
    }
}

/// To which group of instructions an opcode belongs.
pub enum WasmOpcodeGroup {
    Control,
    Call,
    Variable,
    Memory,
    Numeric,
}

/// The group of an opcode, by its code.
pub open spec fn opcode_group(op: WasmOpcode) -> WasmOpcodeGroup {
    let c = op.code();
    if c == 0x10 {
        WasmOpcodeGroup::Call
    } else if c <= 0x11 {
        WasmOpcodeGroup::Control
    } else if c <= 0x24 || c == 0x41 || c == 0x42 {
        WasmOpcodeGroup::Variable
    } else if c <= 0x40 {
        WasmOpcodeGroup::Memory
    } else {
        WasmOpcodeGroup::Numeric
    }
}

/// One step of the machine: what the instruction at `f.pc` does. Bytecode
/// that cannot be decoded, and an instruction without executable meaning,
/// trap `InvalidBytecode`.
pub open spec fn step(
    code: Seq<u8>,
    blocks: Map<usize, WasmBlockContext>,
    m: WasmModuleView,
    f: WasmFrame,
) -> WasmStep {
    match code_opcode(code, f.pc) {
        None => WasmStep::Trap(WasmRuntimeError::InvalidBytecode),
        Some(op) => {
            let g = WasmFrame { pc: f.pc + 1, ..f };
            match opcode_group(op) {
                WasmOpcodeGroup::Control => step_control(op, code, blocks, m, g),
                WasmOpcodeGroup::Call => match code_uint(code, g.pc) {
                    None => WasmStep::Trap(WasmRuntimeError::InvalidBytecode),
                    Some((i, p)) => WasmStep::Invoke(i as usize, WasmFrame { pc: p, ..g }),
                },
                WasmOpcodeGroup::Variable => step_variable(op, code, m, g),
                WasmOpcodeGroup::Memory => step_memory(op, code, m, g),
                WasmOpcodeGroup::Numeric => step_numeric(op, m, g),
            }
        },
    }
}

/// The arguments of a call: the top cells of the caller's stack, one per
/// parameter, each read at the type of its parameter.
pub open spec fn call_args(stack: Seq<WasmStackValue>, params: Seq<WasmValType>) -> Seq<WasmValue> {
    Seq::new(
        params.len(),
        |i: int| stack[stack.len() - params.len() + i].spec_get_by_type(params[i]),
    )
}

/// The locals that an activation starts with, as boundary values: the
/// arguments, then a zero for every declared local.
pub open spec fn initial_locals(args: Seq<WasmValue>, local_types: Seq<WasmValType>) -> Seq<WasmValue> {
    args + Seq::new(local_types.len(), |i: int| WasmValue::spec_default_for(local_types[i]))
}

/// The state in which an activation starts.
pub open spec fn initial_frame(locals: Seq<WasmValue>) -> WasmFrame {
    WasmFrame {
        pc: 0,
        stack: Seq::empty(),
        locals: Seq::new(locals.len(), |i: int| WasmStackValue::spec_from_value(locals[i])),
        blocks: Seq::empty(),
    }
}

/// The value that an activation returns: nothing where the function has no
/// result, else the top cell read at the type of the first result. An empty
/// stack is an `InternalInconsistency`; a result type without executable
/// meaning is an `InvalidParameter`.
pub open spec fn return_value(stack: Seq<WasmStackValue>, result_types: Seq<WasmValType>) -> Result<
    WasmValue,
    WasmRuntimeError,
> {
    if result_types.len() == 0 {
        Ok(WasmValue::Empty)
    } else if stack.len() == 0 {
        Err(WasmRuntimeError::InternalInconsistency)
    } else {
        match result_types[0] {
            WasmValType::I32 => Ok(WasmValue::I32(stack.last().spec_get_i32())),
            WasmValType::I64 => Ok(WasmValue::I64(stack.last().spec_get_i64())),
            _ => Err(WasmRuntimeError::InvalidParameter),
        }
    }
}

/// The caller's state after a call has returned `v`: the value is pushed
/// unless it is the absent value.
pub open spec fn push_result(f: WasmFrame, v: WasmValue) -> WasmFrame {
    if v == WasmValue::Empty {
        f
    } else {
        push(f, WasmStackValue::spec_from_value(v))
    }
}

/// Runs an activation from the state `f` until it ends, traps or has used
/// up `budget` instructions. Every instruction costs one unit; a call costs
/// one unit and what the callee uses. A callee never leaves more budget than
/// it was given (`lemma_call_budget`), so the case that it did never comes.
pub open spec fn spec_exec(
    host: WasmHostModel,
    code: Seq<u8>,
    blocks: Map<usize, WasmBlockContext>,
    m: WasmModuleView,
    f: WasmFrame,
    budget: nat,
) -> WasmExecOutcome
    decreases budget, 0nat,
{
    if budget == 0 {
        WasmExecOutcome { result: Err(WasmRuntimeError::BudgetExhausted), module: m, budget: 0 }
    } else {
        let left = (budget - 1) as nat;
        match step(code, blocks, m, f) {
            WasmStep::Next(g, n) => spec_exec(host, code, blocks, n, g, left),
            WasmStep::Done(g) => WasmExecOutcome { result: Ok(g.stack), module: m, budget: left },
            WasmStep::Trap(e) => WasmExecOutcome { result: Err(e), module: m, budget: left },
            WasmStep::Invoke(index, g) => {
                let sub = spec_call(host, m, index, g.stack, left);
                match sub.result {
                    Err(e) => WasmExecOutcome { result: Err(e), module: sub.module, budget: sub.budget },
                    Ok(v) => if sub.budget <= left {
                        let params = callee_params(m, index);
                        spec_exec(
                            host,
                            code,
                            blocks,
                            sub.module,
                            push_result(
                                WasmFrame {
                                    stack: g.stack.take(g.stack.len() - params.len()),
                                    ..g
                                },
                                v,
                            ),
                            sub.budget,
                        )
                    } else {
                        WasmExecOutcome { result: Err(WasmRuntimeError::BudgetExhausted), module: sub.module, budget: 0 }
                    },
                }
            },
        }
    }
}

/// The parameter types by which the arguments of a call to the function
/// `index` are read: those of its body, or, for an import, of its signature.
pub open spec fn callee_params(m: WasmModuleView, index: usize) -> Seq<WasmValType> {
    if index < m.functions.len() {
        let func = m.functions[index as int];
        match func.body {
            Some(body) => if func.import is None {
                body.param_types
            } else {
                func.param_types
            },
            None => func.param_types,
        }
    } else {
        Seq::empty()
    }
}

/// Calls the function `index` with the arguments on top of `stack`. An
/// import is answered by the host and costs nothing more; a defined function
/// runs as a new activation. An index outside the function table, a function
/// that is neither imported nor has a body, and a stack with fewer cells
/// than the function has parameters are an `InternalInconsistency`.
pub open spec fn spec_call(
    host: WasmHostModel,
    m: WasmModuleView,
    index: usize,
    stack: Seq<WasmStackValue>,
    budget: nat,
) -> WasmOutcome
    decreases budget, 2nat,
{
    if index >= m.functions.len() {
        WasmOutcome { result: Err(WasmRuntimeError::InternalInconsistency), module: m, budget: budget }
    } else {
        let func = m.functions[index as int];
        let params = callee_params(m, index);
        if func.import is None && func.body is None {
            WasmOutcome { result: Err(WasmRuntimeError::InternalInconsistency), module: m, budget: budget }
        } else if stack.len() < params.len() {
            WasmOutcome { result: Err(WasmRuntimeError::InternalInconsistency), module: m, budget: budget }
        } else {
            let args = call_args(stack, params);
            match func.import {
                Some(import) => WasmOutcome { result: host(import.handle, m, args), module: m, budget: budget },
                None => {
                    let body = func.body.unwrap();
                    spec_run(
                        host,
                        body.code,
                        body.block_info.blocks,
                        initial_locals(args, body.local_types),
                        body.result_types,
                        m,
                        budget,
                    )
                },
            }
        }
    }
}

/// Runs a function body as a new activation: with the given locals, from
/// the start of the bytecode, with an empty operand stack.
pub open spec fn spec_run(
    host: WasmHostModel,
    code: Seq<u8>,
    blocks: Map<usize, WasmBlockContext>,
    locals: Seq<WasmValue>,
    result_types: Seq<WasmValType>,
    m: WasmModuleView,
    budget: nat,
) -> WasmOutcome
    decreases budget, 1nat,
{
    let out = spec_exec(host, code, blocks, m, initial_frame(locals), budget);
    WasmOutcome {
        result: match out.result {
            Err(e) => Err(e),
            Ok(stack) => return_value(stack, result_types),
        },
        module: out.module,
        budget: out.budget,
    }
}

/// Invokes the function `index` from outside with the arguments `args`. An
/// index outside the function table and a number of arguments other than
/// the number of parameters are an `InvalidParameter`; a defined function
/// without a body is an `InternalInconsistency`. An import is answered by the
/// host; a defined function runs as a new activation.
pub open spec fn spec_invoke(
    host: WasmHostModel,
    m: WasmModuleView,
    index: usize,
    args: Seq<WasmValue>,
    budget: nat,
) -> WasmOutcome {
    if index >= m.functions.len() {
        WasmOutcome { result: Err(WasmRuntimeError::InvalidParameter), module: m, budget: budget }
    } else {
        let func = m.functions[index as int];
        if args.len() != func.param_types.len() {
            WasmOutcome { result: Err(WasmRuntimeError::InvalidParameter), module: m, budget: budget }
        } else {
            match func.import {
                Some(import) => WasmOutcome {
                    result: host(import.handle, m, args),
                    module: m,
                    budget: budget,
                },
                None => match func.body {
                    None => WasmOutcome {
                        result: Err(WasmRuntimeError::InternalInconsistency),
                        module: m,
                        budget: budget,
                    },
                    Some(body) => spec_run(
                        host,
                        body.code,
                        body.block_info.blocks,
                        initial_locals(args, body.local_types),
                        body.result_types,
                        m,
                        budget,
                    ),
                },
            }
        }
    }
}

/// A call of a defined function with at most one result, if it returns,
/// has taken from the caller's stack as many cells as the function has
/// parameters and has put there as many cells as the function has results.
pub proof fn lemma_call_signature(
    host: WasmHostModel,
    m: WasmModuleView,
    index: usize,
    stack: Seq<WasmStackValue>,
    budget: nat,
)
    requires
        index < m.functions.len(),
        m.functions[index as int].import is None,
        m.functions[index as int].body is Some,
        m.functions[index as int].body.unwrap().result_types.len() <= 1,
        spec_call(host, m, index, stack, budget).result is Ok,
    ensures
        ({
            let body = m.functions[index as int].body.unwrap();
            let v = spec_call(host, m, index, stack, budget).result->Ok_0;
            let caller = WasmFrame {
                pc: 0,
                stack: stack.take(stack.len() - callee_params(m, index).len()),
                locals: Seq::empty(),
                blocks: Seq::empty(),
            };
            &&& callee_params(m, index) == body.param_types
            &&& stack.len() >= body.param_types.len()
            &&& push_result(caller, v).stack.len() == stack.len() - body.param_types.len()
                + body.result_types.len()
            &&& push_result(caller, v).stack.take(stack.len() - body.param_types.len())
                == stack.take(stack.len() - body.param_types.len())
        }),
{
    let body = m.functions[index as int].body.unwrap();
    let args = call_args(stack, body.param_types);
    let out = spec_exec(
        host,
        body.code,
        body.block_info.blocks,
        m,
        initial_frame(initial_locals(args, body.local_types)),
        budget,
    );
    assert(spec_call(host, m, index, stack, budget) == spec_run(
        host,
        body.code,
        body.block_info.blocks,
        initial_locals(args, body.local_types),
        body.result_types,
        m,
        budget,
    ));
    let kept = stack.take(stack.len() - body.param_types.len());
    let v = spec_call(host, m, index, stack, budget).result->Ok_0;
    if v != WasmValue::Empty {
        assert(kept.push(WasmStackValue::spec_from_value(v)).take(kept.len() as int) =~= kept);
    }
    assert(kept.take(kept.len() as int) =~= kept);
}

/// No load and no store that reaches outside the memory is carried out: a
/// memory access that does not trap lies inside the memory, and every other
/// access traps.
pub proof fn lemma_memory_access_is_bounded(op: WasmOpcode, code: Seq<u8>, m: WasmModuleView, f: WasmFrame)
    requires
        load_size(op) != 0 || store_size(op) != 0,
    ensures
        step_memory(op, code, m, f) is Next ==> ({
            let arg = code_memarg(code, f.pc).unwrap().0;
            let size = if load_size(op) != 0 {
                load_size(op)
            } else {
                store_size(op)
            };
            let base = if load_size(op) != 0 {
                f.stack.last()
            } else {
                f.stack[f.stack.len() - 2]
            };
            &&& m.memories.len() > 0
            &&& arg.spec_offset_by(base.spec_get_u32()) + size <= m.memories[0].len()
        }),
        !(step_memory(op, code, m, f) is Done),
        !(step_memory(op, code, m, f) is Invoke),
        step_memory(op, code, m, f) matches WasmStep::Next(g, n) ==> n.memories.len()
            == m.memories.len() && n.memories[0].len() == m.memories[0].len(),
{
}

/// An activation never has more budget left than it was given.
pub proof fn lemma_budget_is_not_exceeded(
    host: WasmHostModel,
    code: Seq<u8>,
    blocks: Map<usize, WasmBlockContext>,
    m: WasmModuleView,
    f: WasmFrame,
    budget: nat,
)
    ensures
        spec_exec(host, code, blocks, m, f, budget).budget <= budget,
    decreases budget, 0nat,
{
    if budget != 0 {
        let left = (budget - 1) as nat;
        match step(code, blocks, m, f) {
            WasmStep::Next(g, n) => {
                lemma_budget_is_not_exceeded(host, code, blocks, n, g, left);
            },
            WasmStep::Done(g) => {},
            WasmStep::Trap(e) => {},
            WasmStep::Invoke(index, g) => {
                let sub = spec_call(host, m, index, g.stack, left);
                match sub.result {
                    Err(e) => {
                        lemma_call_budget(host, m, index, g.stack, left);
                    },
                    Ok(v) => {
                        if sub.budget <= left {
                            let params = callee_params(m, index);
                            lemma_budget_is_not_exceeded(
                                host,
                                code,
                                blocks,
                                sub.module,
                                push_result(
                                    WasmFrame {
                                        stack: g.stack.take(g.stack.len() - params.len()),
                                        ..g
                                    },
                                    v,
                                ),
                                sub.budget,
                            );
                        }
                    },
                }
            },
        }
    }
}

/// A call never leaves more budget than it was given.
pub proof fn lemma_call_budget(
    host: WasmHostModel,
    m: WasmModuleView,
    index: usize,
    stack: Seq<WasmStackValue>,
    budget: nat,
)
    ensures
        spec_call(host, m, index, stack, budget).budget <= budget,
    decreases budget, 2nat,
{
    if index < m.functions.len() {
        let func = m.functions[index as int];
        let params = callee_params(m, index);
        if !(func.import is None && func.body is None) && stack.len() >= params.len()
            && func.import is None {
            let body = func.body.unwrap();
            let args = call_args(stack, params);
            lemma_budget_is_not_exceeded(
                host,
                body.code,
                body.block_info.blocks,
                m,
                initial_frame(initial_locals(args, body.local_types)),
                budget,
            );
        }
    }
}

} // verus!
