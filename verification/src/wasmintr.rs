//! The bytecode interpreter.

use crate::block::{WasmBlockContext, WasmBlockInfo};
use crate::error::WasmRuntimeError;
use crate::leb128::Leb128Stream;
use crate::memory::{in_bounds, WasmMemory};
use crate::module::{WasmFunction, WasmFunctionBody, WasmGlobal, WasmModule, WasmModuleView};
use crate::numeric::{binary, opcode_is_binary, opcode_is_unary, unary};
use crate::opcode::WasmOpcode;
use crate::semantics::{
    branch, call_args, callee_params, code_memarg, code_opcode, code_sint, code_skip, code_uint,
    initial_frame, load_cell, load_size, opcode_group, push_result, return_value, spec_call,
    spec_exec, spec_invoke, spec_run, stack_resize, step, step_control, step_memory, step_numeric,
    step_variable, store_operand, store_size, zero_cell, WasmFrame, WasmHostModel, WasmOpcodeGroup,
    WasmOutcome, WasmStep,
};
use crate::stack::WasmStackValue;
use crate::types::{WasmBlockType, WasmMemArg, WasmValType, WasmValue};
use std::rc::Rc;
use vstd::prelude::*;

verus! {

/// The most cells that an activation allocates ahead for one of its stacks.
pub const WASM_RESERVE_LIMIT: usize = 0x1_0000;

/// Whether the host may answer `r` to a call with this handle, this module
/// and these arguments.
pub open spec fn host_may_return<H: Fn(usize, &WasmModule, &[WasmValue]) -> Result<WasmValue, WasmRuntimeError>>(
    host: &H,
    handle: usize,
    m: WasmModuleView,
    args: Seq<WasmValue>,
    r: Result<WasmValue, WasmRuntimeError>,
) -> bool {
    exists|module: &WasmModule, params: &[WasmValue]|
        module@ == m && params@ == args && #[trigger] call_ensures(*host, (handle, module, params), r)
}

/// Whether the host can be called with every handle, module and arguments.
pub open spec fn host_accepts_all<H: Fn(usize, &WasmModule, &[WasmValue]) -> Result<WasmValue, WasmRuntimeError>>(
    host: &H,
) -> bool {
    forall|handle: usize, module: &WasmModule, params: &[WasmValue]|
        call_requires(*host, (handle, module, params))
}

/// Whether the host is deterministic: its answer is a function of the
/// handle, of the contents of the module and of the arguments.
pub open spec fn host_is_function<H: Fn(usize, &WasmModule, &[WasmValue]) -> Result<WasmValue, WasmRuntimeError>>(
    host: &H,
) -> bool {
    forall|
        handle: usize,
        m: WasmModuleView,
        args: Seq<WasmValue>,
        r1: Result<WasmValue, WasmRuntimeError>,
        r2: Result<WasmValue, WasmRuntimeError>,
    |
        #[trigger] host_may_return(host, handle, m, args, r1) && #[trigger] host_may_return(
            host,
            handle,
            m,
            args,
            r2,
        ) ==> r1 == r2
}

/// The answers of a deterministic host, as a function.
pub open spec fn host_model<H: Fn(usize, &WasmModule, &[WasmValue]) -> Result<WasmValue, WasmRuntimeError>>(
    host: &H,
) -> WasmHostModel {
    |handle: usize, m: WasmModuleView, args: Seq<WasmValue>|
        choose|r: Result<WasmValue, WasmRuntimeError>| host_may_return(host, handle, m, args, r)
}

/// A cursor over the bytecode of one function body, with the block table of
/// that body.
pub struct WasmCodeBlock<'a> {
    pub code: Leb128Stream<'a>,
    pub info: &'a WasmBlockInfo,
}

impl<'a> WasmCodeBlock<'a> {
    /// A cursor at the start of `slice`.
    pub fn from_slice(slice: &'a [u8], info: &'a WasmBlockInfo) -> (r: Self)
        ensures
            r.code.blob@ == slice@,
            r.code.position == 0,
            *r.info == *info,
    {
        WasmCodeBlock { code: Leb128Stream::from_slice(slice), info }
    }

    /// Moves the cursor back to the start.
    pub fn reset(&mut self)
        ensures
            final(self).code.blob@ == old(self).code.blob@,
            final(self).info == old(self).info,
            final(self).code.position == 0,
    {
        self.code.reset();
    }

    /// The block table.
    pub fn info(&self) -> (r: &WasmBlockInfo)
        ensures
            *r == *self.info,
    {
        self.info
    }

    /// The current position.
    pub fn fetch_position(&self) -> (r: usize)
        ensures
            r == self.code.position,
    {
        self.code.fetch_position()
    }

    /// Moves the cursor to `val`.
    pub fn set_position(&mut self, val: usize)
        ensures
            final(self).code.blob@ == old(self).code.blob@,
            final(self).info == old(self).info,
            final(self).code.position == val,
    {
        self.code.set_position(val);
    }

    /// Reads an opcode. The end of the bytecode and a byte that encodes no
    /// opcode are `InvalidBytecode`, and leave the cursor where it was.
    pub fn read_opcode(&mut self) -> (r: Result<WasmOpcode, WasmRuntimeError>)
        ensures
            final(self).code.blob@ == old(self).code.blob@,
            final(self).info == old(self).info,
            match code_opcode(old(self).code.blob@, old(self).code.position as int) {
                Some(op) => r == Ok::<WasmOpcode, WasmRuntimeError>(op) && final(self).code.position
                    == old(self).code.position + 1,
                None => r == Err::<WasmOpcode, WasmRuntimeError>(WasmRuntimeError::InvalidBytecode)
                    && final(self).code.position == old(self).code.position,
            },
    {
        let start: usize = self.code.fetch_position();
        match self.code.read_u8() {
            Ok(b) => match WasmOpcode::from_u8(b) {
                Some(op) => Ok(op),
                None => {
                    self.code.set_position(start);
                    Err(WasmRuntimeError::InvalidBytecode)
                },
            },
            Err(_) => Err(WasmRuntimeError::InvalidBytecode),
        }
    }

    /// Reads an unsigned LEB128 immediate. A malformed or cut-off integer is
    /// `InvalidBytecode`.
    pub fn read_uint(&mut self) -> (r: Result<u64, WasmRuntimeError>)
        ensures
            final(self).code.blob@ == old(self).code.blob@,
            final(self).info == old(self).info,
            match code_uint(old(self).code.blob@, old(self).code.position as int) {
                Some((v, p)) => r == Ok::<u64, WasmRuntimeError>(v) && final(self).code.position == p,
                None => r == Err::<u64, WasmRuntimeError>(WasmRuntimeError::InvalidBytecode)
                    && final(self).code.position == old(self).code.position,
            },
    {
        match self.code.read_uint() {
            Ok(v) => Ok(v),
            Err(_) => Err(WasmRuntimeError::InvalidBytecode),
        }
    }

    /// Reads a signed LEB128 immediate. A malformed or cut-off integer is
    /// `InvalidBytecode`.
    pub fn read_sint(&mut self) -> (r: Result<i64, WasmRuntimeError>)
        ensures
            final(self).code.blob@ == old(self).code.blob@,
            final(self).info == old(self).info,
            match code_sint(old(self).code.blob@, old(self).code.position as int) {
                Some((v, p)) => r == Ok::<i64, WasmRuntimeError>(v) && final(self).code.position == p,
                None => r == Err::<i64, WasmRuntimeError>(WasmRuntimeError::InvalidBytecode)
                    && final(self).code.position == old(self).code.position,
            },
    {
        match self.code.read_sint() {
            Ok(v) => Ok(v),
            Err(_) => Err(WasmRuntimeError::InvalidBytecode),
        }
    }

    /// Skips `n` unsigned LEB128 immediates. Where one of them is malformed
    /// or cut off, the cursor stays where it was.
    pub fn skip_uints(&mut self, n: u64) -> (r: Result<(), WasmRuntimeError>)
        ensures
            final(self).code.blob@ == old(self).code.blob@,
            final(self).info == old(self).info,
            match code_skip(old(self).code.blob@, old(self).code.position as int, n as nat) {
                Some(p) => r is Ok && final(self).code.position == p,
                None => r == Err::<(), WasmRuntimeError>(WasmRuntimeError::InvalidBytecode)
                    && final(self).code.position == old(self).code.position,
            },
    {
        let start: usize = self.code.fetch_position();
        let mut i: u64 = 0;
        while i < n
            invariant
                i <= n,
                self.code.blob@ == old(self).code.blob@,
                self.info == old(self).info,
                start == old(self).code.position,
                code_skip(old(self).code.blob@, old(self).code.position as int, n as nat)
                    == code_skip(self.code.blob@, self.code.position as int, (n - i) as nat),
            decreases n - i,
        {
            if self.read_uint().is_err() {
                self.code.set_position(start);
                return Err(WasmRuntimeError::InvalidBytecode);
            }
            i = i + 1;
        }
        Ok(())
    }

    /// Reads the two immediates of a memory instruction: the alignment hint,
    /// then the offset, each cut to 32 bits. Where one of them is malformed or
    /// cut off, the read is `InvalidBytecode` and the cursor stays where it
    /// was.
    pub fn read_memarg(&mut self) -> (r: Result<WasmMemArg, WasmRuntimeError>)
        ensures
            final(self).code.blob@ == old(self).code.blob@,
            final(self).info == old(self).info,
            match code_memarg(old(self).code.blob@, old(self).code.position as int) {
                Some((arg, p)) => r == Ok::<WasmMemArg, WasmRuntimeError>(arg)
                    && final(self).code.position == p,
                None => r == Err::<WasmMemArg, WasmRuntimeError>(WasmRuntimeError::InvalidBytecode)
                    && final(self).code.position == old(self).code.position,
            },
    {
        let start: usize = self.code.fetch_position();
        let align: u32 = self.read_uint()? as u32;
        let offset: u32 = match self.read_uint() {
            Ok(v) => v as u32,
            Err(e) => {
                self.code.set_position(start);
                return Err(e);
            },
        };
        Ok(WasmMemArg::new(offset, align))
    }
}

/// What the interpreter does after an instruction.
#[derive(Clone, Copy, Debug, PartialEq, Eq, Structural)]
pub enum WasmFlow {
    /// Go on with the next instruction.
    Continue,
    /// The activation has ended.
    Finish,
    /// Call the function of this index.
    Call(usize),
}

/// The state of the machine that the interpreter's variables stand for.
pub open spec fn frame_of(
    code_block: &WasmCodeBlock,
    value_stack: Seq<WasmStackValue>,
    locals: Seq<WasmStackValue>,
    block_stack: Seq<usize>,
) -> WasmFrame {
    WasmFrame {
        pc: code_block.code.position as int,
        stack: value_stack,
        locals: locals,
        blocks: block_stack,
    }
}

/// Whether the interpreter did what the step `s` says: `r` is what it
/// answered, `f` and `m` are the state and the module that it left, `m0` is
/// the module that it found.
pub open spec fn flow_matches(
    s: WasmStep,
    r: Result<WasmFlow, WasmRuntimeError>,
    f: WasmFrame,
    m: WasmModuleView,
    m0: WasmModuleView,
) -> bool {
    match s {
        WasmStep::Next(g, n) => r == Ok::<WasmFlow, WasmRuntimeError>(WasmFlow::Continue) && f =~= g
            && m =~= n,
        WasmStep::Done(g) => r == Ok::<WasmFlow, WasmRuntimeError>(WasmFlow::Finish) && f =~= g && m
            =~= m0,
        WasmStep::Trap(e) => r == Err::<WasmFlow, WasmRuntimeError>(e) && m =~= m0,
        WasmStep::Invoke(i, g) => r == Ok::<WasmFlow, WasmRuntimeError>(WasmFlow::Call(i)) && f =~= g
            && m =~= m0,
    }
}

/// Whether running code has left the image of the module as it was: the
/// types, the functions and the exports are the same, every memory has the
/// size and the limits that it had, and every global has the type and the
/// mutability that it had.
pub open spec fn image_kept(after: WasmModule, before: WasmModule) -> bool {
    &&& after.types == before.types
    &&& after.functions == before.functions
    &&& after.exports == before.exports
    &&& after.memories@.len() == before.memories@.len()
    &&& forall|i: int|
        0 <= i < after.memories@.len() ==> (#[trigger] after.memories@[i])@.len()
            == before.memories@[i]@.len() && after.memories@[i].limit == before.memories@[i].limit
    &&& after.globals@.len() == before.globals@.len()
    &&& forall|i: int|
        0 <= i < after.globals@.len() ==> (#[trigger] after.globals@[i]).val_type
            == before.globals@[i].val_type && after.globals@[i].is_mutable
            == before.globals@[i].is_mutable
}

/// Whether an invocation that was given the budget `budget` and left the
/// result `r`, the module `m` and the budget `left` ended as `out` says.
pub open spec fn ends_as(
    out: WasmOutcome,
    r: Result<WasmValue, WasmRuntimeError>,
    m: WasmModuleView,
    left: u64,
) -> bool {
    r == out.result && m == out.module && left == out.budget
}

/// Execution is deterministic: two runs that start alike end alike, in
/// their result, in the memory and the globals that they leave, and in the
/// budget that they have used.
pub proof fn lemma_run_twice(
    host: WasmHostModel,
    code: Seq<u8>,
    blocks: Map<usize, WasmBlockContext>,
    locals: Seq<WasmValue>,
    result_types: Seq<WasmValType>,
    m: WasmModuleView,
    budget: nat,
    r1: Result<WasmValue, WasmRuntimeError>,
    m1: WasmModuleView,
    left1: u64,
    r2: Result<WasmValue, WasmRuntimeError>,
    m2: WasmModuleView,
    left2: u64,
)
    requires
        ends_as(spec_run(host, code, blocks, locals, result_types, m, budget), r1, m1, left1),
        ends_as(spec_run(host, code, blocks, locals, result_types, m, budget), r2, m2, left2),
    ensures
        r1 == r2,
        m1 == m2,
        m1.memories == m2.memories,
        m1.globals == m2.globals,
        left1 == left2,
{
}

/// The interpreter: it has no state of its own; an activation lives in the
/// call of `run`.
pub struct WasmInterpreter {}

impl WasmInterpreter {
    /// The number of cells to allocate ahead for a stack that the block
    /// table says will hold `n` cells: `n`, but no more than the limit.
    fn reserve(n: usize) -> (r: usize)
        ensures
            r == (if n < WASM_RESERVE_LIMIT {
                n
            } else {
                WASM_RESERVE_LIMIT
            }),
    {
        if n < WASM_RESERVE_LIMIT {
            n
        } else {
            WASM_RESERVE_LIMIT
        }
    }

    /// Cuts the stack down to `n` cells, or fills it up to `n` cells with
    /// zero cells.
    fn resize(stack: &mut Vec<WasmStackValue>, n: usize)
        ensures
            final(stack)@ == stack_resize(old(stack)@, n as nat),
    {
        if n <= stack.len() {
            stack.truncate(n);
        } else {
            while stack.len() < n
                invariant
                    old(stack)@.len() <= stack@.len() <= n,
                    stack@ =~= old(stack)@ + Seq::new(
                        (stack@.len() - old(stack)@.len()) as nat,
                        |i: int| zero_cell(),
                    ),
                decreases n - stack@.len(),
            {
                stack.push(WasmStackValue::from_usize(0));
            }
        }
    }

    /// Branches to the block `target` levels out.
    fn branch(
        target: usize,
        block_stack: &mut Vec<usize>,
        value_stack: &mut Vec<WasmStackValue>,
        code_block: &mut WasmCodeBlock,
    ) -> (r: Result<(), WasmRuntimeError>)
        ensures
            final(code_block).code.blob@ == old(code_block).code.blob@,
            final(code_block).info == old(code_block).info,
            match branch(
                old(code_block).info@.blocks,
                WasmFrame {
                    pc: old(code_block).code.position as int,
                    stack: old(value_stack)@,
                    locals: Seq::empty(),
                    blocks: old(block_stack)@,
                },
                target,
            ) {
                Ok(g) => r is Ok && final(code_block).code.position == g.pc && final(value_stack)@
                    =~= g.stack && final(block_stack)@ =~= g.blocks,
                Err(e) => r == Err::<(), WasmRuntimeError>(e),
            },
    {
        if target >= block_stack.len() {
            return Err(WasmRuntimeError::InternalInconsistency);
        }
        let keep: usize = block_stack.len() - target - 1;
        let block_position: usize = block_stack[keep];
        block_stack.truncate(keep);
        let block: WasmBlockContext = code_block.info().block_info(block_position).ok_or(
            WasmRuntimeError::InternalInconsistency,
        )?;
        let block_type: WasmBlockType = block.block_type;
        let new_len: usize = block.stack_level;
        let new_position: usize = block.preferred_target();
        match block_type {
            WasmBlockType::Empty => {
                Self::resize(value_stack, new_len);
            },
            _ => {
                let top_val: WasmStackValue = value_stack.pop().ok_or(
                    WasmRuntimeError::InternalInconsistency,
                )?;
                Self::resize(value_stack, new_len);
                value_stack.push(top_val);
            },
        }
        code_block.set_position(new_position);
        Ok(())
    }

    /// Carries out a structured control instruction whose opcode has been
    /// read.
    fn control(
        opcode: WasmOpcode,
        code_block: &mut WasmCodeBlock,
        locals: &Vec<WasmStackValue>,
        value_stack: &mut Vec<WasmStackValue>,
        block_stack: &mut Vec<usize>,
        module: &WasmModule,
    ) -> (r: Result<WasmFlow, WasmRuntimeError>)
        ensures
            final(code_block).code.blob@ == old(code_block).code.blob@,
            final(code_block).info == old(code_block).info,
            flow_matches(
                step_control(
                    opcode,
                    old(code_block).code.blob@,
                    old(code_block).info@.blocks,
                    module@,
                    frame_of(old(code_block), old(value_stack)@, locals@, old(block_stack)@),
                ),
                r,
                frame_of(final(code_block), final(value_stack)@, locals@, final(block_stack)@),
                module@,
                module@,
            ),
    {
        match opcode {
            WasmOpcode::Nop => Ok(WasmFlow::Continue),
            WasmOpcode::Block | WasmOpcode::Loop => {
                let _ = code_block.read_uint()?;
                block_stack.push(code_block.fetch_position());
                Ok(WasmFlow::Continue)
            },
            WasmOpcode::If => {
                let _ = code_block.read_uint()?;
                let position: usize = code_block.fetch_position();
                let cc: bool = match value_stack.pop() {
                    Some(v) => v.get_bool(),
                    None => { return Err(WasmRuntimeError::InternalInconsistency); },
                };
                if cc {
                    block_stack.push(position);
                } else {
                    let block: WasmBlockContext = match code_block.info().block_info(position) {
                        Some(b) => b,
                        None => { return Err(WasmRuntimeError::InternalInconsistency); },
                    };
                    let end_position: usize = block.end_position;
                    let else_position: usize = block.else_position;
                    if else_position != 0 {
                        block_stack.push(position);
                        code_block.set_position(else_position);
                    } else {
                        code_block.set_position(end_position);
                    }
                }
                Ok(WasmFlow::Continue)
            },
            WasmOpcode::Else => {
                Self::branch(0, block_stack, value_stack, code_block)?;
                Ok(WasmFlow::Continue)
            },
            WasmOpcode::End => {
                if block_stack.pop().is_none() {
                    Ok(WasmFlow::Finish)
                } else {
                    Ok(WasmFlow::Continue)
                }
            },
            WasmOpcode::Br => {
                let target: usize = code_block.read_uint()? as usize;
                Self::branch(target, block_stack, value_stack, code_block)?;
                Ok(WasmFlow::Continue)
            },
            WasmOpcode::BrIf => {
                let target: usize = code_block.read_uint()? as usize;
                let cc: bool = match value_stack.pop() {
                    Some(v) => v.get_bool(),
                    None => { return Err(WasmRuntimeError::InternalInconsistency); },
                };
                if cc {
                    Self::branch(target, block_stack, value_stack, code_block)?;
                }
                Ok(WasmFlow::Continue)
            },
            WasmOpcode::BrTable => {
                let index: u32 = match value_stack.pop() {
                    Some(v) => v.get_u32(),
                    None => { return Err(WasmRuntimeError::InternalInconsistency); },
                };
                let count: u64 = code_block.read_uint()?;
                let skipped: u64 = if (index as u64) < count {
                    index as u64
                } else {
                    count
                };
                code_block.skip_uints(skipped)?;
                let target: usize = code_block.read_uint()? as usize;
                Self::branch(target, block_stack, value_stack, code_block)?;
                Ok(WasmFlow::Continue)
            },
            WasmOpcode::Return => Ok(WasmFlow::Finish),
            _ => Err(WasmRuntimeError::InvalidBytecode),
        }
    }

    /// Carries out `drop`, `select`, an instruction on a local or a global,
    /// or a constant, whose opcode has been read.
    fn variable(
        opcode: WasmOpcode,
        code_block: &mut WasmCodeBlock,
        locals: &mut Vec<WasmStackValue>,
        value_stack: &mut Vec<WasmStackValue>,
        block_stack: &Vec<usize>,
        module: &mut WasmModule,
    ) -> (r: Result<WasmFlow, WasmRuntimeError>)
        ensures
            final(code_block).code.blob@ == old(code_block).code.blob@,
            final(code_block).info == old(code_block).info,
            image_kept(*final(module), *old(module)),
            flow_matches(
                step_variable(
                    opcode,
                    old(code_block).code.blob@,
                    old(module)@,
                    frame_of(old(code_block), old(value_stack)@, old(locals)@, block_stack@),
                ),
                r,
                frame_of(final(code_block), final(value_stack)@, final(locals)@, block_stack@),
                final(module)@,
                old(module)@,
            ),
    {
        match opcode {
            WasmOpcode::Drop => {
                let _ = value_stack.pop();
                Ok(WasmFlow::Continue)
            },
            WasmOpcode::Select => {
                let cc: bool = match value_stack.pop() {
                    Some(v) => v.get_bool(),
                    None => { return Err(WasmRuntimeError::InternalInconsistency); },
                };
                let b: WasmStackValue = match value_stack.pop() {
                    Some(v) => v,
                    None => { return Err(WasmRuntimeError::InternalInconsistency); },
                };
                let a: WasmStackValue = match value_stack.pop() {
                    Some(v) => v,
                    None => { return Err(WasmRuntimeError::InternalInconsistency); },
                };
                let c: WasmStackValue = if cc { a } else { b };
                value_stack.push(c);
                Ok(WasmFlow::Continue)
            },
            WasmOpcode::LocalGet => {
                let local_ref: usize = code_block.read_uint()? as usize;
                if local_ref >= locals.len() {
                    return Err(WasmRuntimeError::InternalInconsistency);
                }
                let val: WasmStackValue = locals[local_ref];
                value_stack.push(val);
                Ok(WasmFlow::Continue)
            },
            WasmOpcode::LocalSet => {
                let local_ref: usize = code_block.read_uint()? as usize;
                if local_ref >= locals.len() {
                    return Err(WasmRuntimeError::InternalInconsistency);
                }
                let val: WasmStackValue = match value_stack.pop() {
                    Some(v) => v,
                    None => { return Err(WasmRuntimeError::InternalInconsistency); },
                };
                locals[local_ref] = val;
                Ok(WasmFlow::Continue)
            },
            WasmOpcode::LocalTee => {
                let local_ref: usize = code_block.read_uint()? as usize;
                if local_ref >= locals.len() {
                    return Err(WasmRuntimeError::InternalInconsistency);
                }
                if value_stack.len() == 0 {
                    return Err(WasmRuntimeError::InternalInconsistency);
                }
                let val: WasmStackValue = value_stack[value_stack.len() - 1];
                locals[local_ref] = val;
                Ok(WasmFlow::Continue)
            },
            WasmOpcode::GlobalGet => {
                let global_ref: usize = code_block.read_uint()? as usize;
                if global_ref >= module.globals.len() {
                    return Err(WasmRuntimeError::InternalInconsistency);
                }
                let val: WasmStackValue = module.globals[global_ref].value;
                value_stack.push(val);
                Ok(WasmFlow::Continue)
            },
            WasmOpcode::GlobalSet => {
                let global_ref: usize = code_block.read_uint()? as usize;
                if global_ref >= module.globals.len() {
                    return Err(WasmRuntimeError::InternalInconsistency);
                }
                let val: WasmStackValue = match value_stack.pop() {
                    Some(v) => v,
                    None => { return Err(WasmRuntimeError::InternalInconsistency); },
                };
                let global: WasmGlobal = module.globals[global_ref];
                module.globals[global_ref] = WasmGlobal {
                    val_type: global.val_type,
                    is_mutable: global.is_mutable,
                    value: val,
                };
                Ok(WasmFlow::Continue)
            },
            WasmOpcode::I32Const => {
                let val: i32 = code_block.read_sint()? as i32;
                value_stack.push(WasmStackValue::from_i32(val));
                Ok(WasmFlow::Continue)
            },
            WasmOpcode::I64Const => {
                let val: i64 = code_block.read_sint()?;
                value_stack.push(WasmStackValue::from_i64(val));
                Ok(WasmFlow::Continue)
            },
            _ => Err(WasmRuntimeError::InvalidBytecode),
        }
    }

    /// The number of bytes that a load instruction reads; 0 for any other
    /// opcode.
    fn load_width(opcode: WasmOpcode) -> (r: usize)
        ensures
            r == load_size(opcode),
    {
        match opcode {
            WasmOpcode::I32Load8S
            | WasmOpcode::I32Load8U
            | WasmOpcode::I64Load8S
            | WasmOpcode::I64Load8U => 1,
            WasmOpcode::I32Load16S
            | WasmOpcode::I32Load16U
            | WasmOpcode::I64Load16S
            | WasmOpcode::I64Load16U => 2,
            WasmOpcode::I32Load | WasmOpcode::I64Load32S | WasmOpcode::I64Load32U => 4,
            WasmOpcode::I64Load => 8,
            _ => 0,
        }
    }

    /// The number of bytes that a store instruction writes; 0 for any other
    /// opcode.
    fn store_width(opcode: WasmOpcode) -> (r: usize)
        ensures
            r == store_size(opcode),
    {
        match opcode {
            WasmOpcode::I32Store8 | WasmOpcode::I64Store8 => 1,
            WasmOpcode::I32Store16 | WasmOpcode::I64Store16 => 2,
            WasmOpcode::I32Store | WasmOpcode::I64Store32 => 4,
            WasmOpcode::I64Store => 8,
            _ => 0,
        }
    }

    /// Loads from `memory` at `addr` what the load instruction `opcode`
    /// reads, and extends it to a cell.
    fn load(opcode: WasmOpcode, memory: &WasmMemory, addr: u64) -> (r: Result<
        WasmStackValue,
        WasmRuntimeError,
    >)
        requires
            load_size(opcode) != 0,
        ensures
            in_bounds(memory@.len(), addr as int, load_size(opcode)) ==> r == Ok::<
                WasmStackValue,
                WasmRuntimeError,
            >(load_cell(opcode, crate::leb128::le_value(memory@, addr as int, load_size(opcode)))),
            !in_bounds(memory@.len(), addr as int, load_size(opcode)) ==> r == Err::<
                WasmStackValue,
                WasmRuntimeError,
            >(WasmRuntimeError::OutOfBounds),
    {
        proof {
            reveal_with_fuel(crate::leb128::le_value, 2);
        }
        match opcode {
            WasmOpcode::I32Load => {
                let val: u32 = memory.read_u32(addr)?;
                Ok(WasmStackValue::from_u32(val))
            },
            WasmOpcode::I64Load => {
                let val: u64 = memory.read_u64(addr)?;
                Ok(WasmStackValue::from_u64(val))
            },
            WasmOpcode::I32Load8S => {
                let val: u8 = memory.read_u8(addr)?;
                Ok(WasmStackValue::from_i32((val as i8) as i32))
            },
            WasmOpcode::I32Load8U => {
                let val: u8 = memory.read_u8(addr)?;
                Ok(WasmStackValue::from_u32(val as u32))
            },
            WasmOpcode::I32Load16S => {
                let val: u16 = memory.read_u16(addr)?;
                Ok(WasmStackValue::from_i32((val as i16) as i32))
            },
            WasmOpcode::I32Load16U => {
                let val: u16 = memory.read_u16(addr)?;
                Ok(WasmStackValue::from_u32(val as u32))
            },
            WasmOpcode::I64Load8S => {
                let val: u8 = memory.read_u8(addr)?;
                Ok(WasmStackValue::from_i64((val as i8) as i64))
            },
            WasmOpcode::I64Load8U => {
                let val: u8 = memory.read_u8(addr)?;
                Ok(WasmStackValue::from_u64(val as u64))
            },
            WasmOpcode::I64Load16S => {
                let val: u16 = memory.read_u16(addr)?;
                Ok(WasmStackValue::from_i64((val as i16) as i64))
            },
            WasmOpcode::I64Load16U => {
                let val: u16 = memory.read_u16(addr)?;
                Ok(WasmStackValue::from_u64(val as u64))
            },
            WasmOpcode::I64Load32S => {
                let val: u32 = memory.read_u32(addr)?;
                Ok(WasmStackValue::from_i64((val as i32) as i64))
            },
            _ => {
                let val: u32 = memory.read_u32(addr)?;
                Ok(WasmStackValue::from_u64(val as u64))
            },
        }
    }

    /// Stores into `memory` at `addr` what the store instruction `opcode`
    /// writes of the cell `val`.
    fn store(opcode: WasmOpcode, memory: &mut WasmMemory, addr: u64, val: WasmStackValue) -> (r:
        Result<(), WasmRuntimeError>)
        requires
            store_size(opcode) != 0,
        ensures
            final(memory).limit == old(memory).limit,
            in_bounds(old(memory)@.len(), addr as int, store_size(opcode)) ==> r is Ok
                && final(memory)@ == crate::memory::store_le(
                old(memory)@,
                addr as int,
                store_operand(opcode, val),
                store_size(opcode),
            ),
            !in_bounds(old(memory)@.len(), addr as int, store_size(opcode)) ==> r == Err::<
                (),
                WasmRuntimeError,
            >(WasmRuntimeError::OutOfBounds) && final(memory)@ == old(memory)@,
    {
        match opcode {
            WasmOpcode::I32Store8 | WasmOpcode::I64Store8 => memory.write_u8(addr, val.get_u8()),
            WasmOpcode::I32Store16 | WasmOpcode::I64Store16 => memory.write_u16(addr, val.get_u16()),
            WasmOpcode::I32Store | WasmOpcode::I64Store32 => memory.write_u32(addr, val.get_u32()),
            _ => memory.write_u64(addr, val.get_u64()),
        }
    }

    /// Carries out a memory instruction whose opcode has been read. No load
    /// and no store that reaches outside the memory is carried out: it traps
    /// `OutOfBounds` and leaves the memory as it was.
    fn memory(
        opcode: WasmOpcode,
        code_block: &mut WasmCodeBlock,
        locals: &Vec<WasmStackValue>,
        value_stack: &mut Vec<WasmStackValue>,
        block_stack: &Vec<usize>,
        module: &mut WasmModule,
    ) -> (r: Result<WasmFlow, WasmRuntimeError>)
        ensures
            final(code_block).code.blob@ == old(code_block).code.blob@,
            final(code_block).info == old(code_block).info,
            image_kept(*final(module), *old(module)),
            flow_matches(
                step_memory(
                    opcode,
                    old(code_block).code.blob@,
                    old(module)@,
                    frame_of(old(code_block), old(value_stack)@, locals@, block_stack@),
                ),
                r,
                frame_of(final(code_block), final(value_stack)@, locals@, block_stack@),
                final(module)@,
                old(module)@,
            ),
    {
        if Self::load_width(opcode) != 0 {
            let memarg: WasmMemArg = code_block.read_memarg()?;
            if module.memories.len() == 0 {
                return Err(WasmRuntimeError::OutOfMemory);
            }
            let base: u32 = match value_stack.pop() {
                Some(v) => v.get_u32(),
                None => { return Err(WasmRuntimeError::InternalInconsistency); },
            };
            let val: WasmStackValue = Self::load(
                opcode,
                &module.memories[0],
                memarg.offset_by(base),
            )?;
            value_stack.push(val);
            Ok(WasmFlow::Continue)
        } else if Self::store_width(opcode) != 0 {
            let memarg: WasmMemArg = code_block.read_memarg()?;
            if module.memories.len() == 0 {
                return Err(WasmRuntimeError::OutOfMemory);
            }
            let val: WasmStackValue = match value_stack.pop() {
                Some(v) => v,
                None => { return Err(WasmRuntimeError::InternalInconsistency); },
            };
            let base: u32 = match value_stack.pop() {
                Some(v) => v.get_u32(),
                None => { return Err(WasmRuntimeError::InternalInconsistency); },
            };
            Self::store(opcode, &mut module.memories[0], memarg.offset_by(base), val)?;
            Ok(WasmFlow::Continue)
        } else {
            match opcode {
                WasmOpcode::MemorySize => {
                    let _ = code_block.read_uint()?;
                    if module.memories.len() == 0 {
                        return Err(WasmRuntimeError::OutOfMemory);
                    }
                    let pages: usize = module.memories[0].size();
                    value_stack.push(WasmStackValue::from_usize(pages));
                    Ok(WasmFlow::Continue)
                },
                _ => Err(WasmRuntimeError::InvalidBytecode),
            }
        }
    }

    /// Carries out an integer operator whose opcode has been read.
    fn numeric(
        opcode: WasmOpcode,
        code_block: &WasmCodeBlock,
        locals: &Vec<WasmStackValue>,
        value_stack: &mut Vec<WasmStackValue>,
        block_stack: &Vec<usize>,
        module: &WasmModule,
    ) -> (r: Result<WasmFlow, WasmRuntimeError>)
        ensures
            flow_matches(
                step_numeric(
                    opcode,
                    module@,
                    frame_of(code_block, old(value_stack)@, locals@, block_stack@),
                ),
                r,
                frame_of(code_block, final(value_stack)@, locals@, block_stack@),
                module@,
                module@,
            ),
    {
        let n: usize = value_stack.len();
        if opcode_is_unary(opcode) {
            if n == 0 {
                return Err(WasmRuntimeError::InternalInconsistency);
            }
            let a: WasmStackValue = value_stack[n - 1];
            match unary(opcode, a) {
                Some(v) => {
                    value_stack[n - 1] = v;
                    assert(value_stack@ =~= old(value_stack)@.drop_last().push(v));
                    Ok(WasmFlow::Continue)
                },
                None => Err(WasmRuntimeError::InvalidBytecode),
            }
        } else if opcode_is_binary(opcode) {
            if n < 2 {
                return Err(WasmRuntimeError::InternalInconsistency);
            }
            let b: WasmStackValue = value_stack[n - 1];
            let a: WasmStackValue = value_stack[n - 2];
            match binary(opcode, a, b) {
                Some(Ok(v)) => {
                    value_stack.truncate(n - 2);
                    value_stack.push(v);
                    Ok(WasmFlow::Continue)
                },
                Some(Err(e)) => Err(e),
                None => Err(WasmRuntimeError::InvalidBytecode),
            }
        } else {
            Err(WasmRuntimeError::InvalidBytecode)
        }
    }

    /// The group of instructions that an opcode belongs to.
    fn group(opcode: WasmOpcode) -> (r: WasmOpcodeGroup)
        ensures
            r == opcode_group(opcode),
    {
        let c: u8 = opcode.to_u8();
        if c == 0x10 {
            WasmOpcodeGroup::Call
        } else if c <= 0x11 {
            WasmOpcodeGroup::Control
        } else if c <= 0x24 || c == 0x41 || c == 0x42 {
            WasmOpcodeGroup::Variable
        } else if c <= 0x40 {
            WasmOpcodeGroup::Memory
        } else {
            WasmOpcodeGroup::Numeric
        }
    }

    /// Decodes the instruction at the cursor and carries it out, but for a
    /// call: of a call it reads the function index and hands it back.
    fn step(
        code_block: &mut WasmCodeBlock,
        locals: &mut Vec<WasmStackValue>,
        value_stack: &mut Vec<WasmStackValue>,
        block_stack: &mut Vec<usize>,
        module: &mut WasmModule,
    ) -> (r: Result<WasmFlow, WasmRuntimeError>)
        ensures
            final(code_block).code.blob@ == old(code_block).code.blob@,
            final(code_block).info == old(code_block).info,
            image_kept(*final(module), *old(module)),
            flow_matches(
                step(
                    old(code_block).code.blob@,
                    old(code_block).info@.blocks,
                    old(module)@,
                    frame_of(old(code_block), old(value_stack)@, old(locals)@, old(block_stack)@),
                ),
                r,
                frame_of(final(code_block), final(value_stack)@, final(locals)@, final(block_stack)@),
                final(module)@,
                old(module)@,
            ),
    {
        let opcode: WasmOpcode = code_block.read_opcode()?;
        match Self::group(opcode) {
            WasmOpcodeGroup::Control => Self::control(
                opcode,
                code_block,
                locals,
                value_stack,
                block_stack,
                module,
            ),
            WasmOpcodeGroup::Call => {
                let index: usize = code_block.read_uint()? as usize;
                Ok(WasmFlow::Call(index))
            },
            WasmOpcodeGroup::Variable => Self::variable(
                opcode,
                code_block,
                locals,
                value_stack,
                block_stack,
                module,
            ),
            WasmOpcodeGroup::Memory => Self::memory(
                opcode,
                code_block,
                locals,
                value_stack,
                block_stack,
                module,
            ),
            WasmOpcodeGroup::Numeric => Self::numeric(
                opcode,
                code_block,
                locals,
                value_stack,
                block_stack,
                module,
            ),
        }
    }

    /// The value that the activation returns, taken from its operand stack.
    fn finish(value_stack: &mut Vec<WasmStackValue>, result_types: &[WasmValType]) -> (r: Result<
        WasmValue,
        WasmRuntimeError,
    >)
        ensures
            r == return_value(old(value_stack)@, result_types@),
    {
        if result_types.len() > 0 {
            let val: WasmStackValue = value_stack.pop().ok_or(
                WasmRuntimeError::InternalInconsistency,
            )?;
            match result_types[0] {
                WasmValType::I32 => Ok(WasmValue::I32(val.get_i32())),
                WasmValType::I64 => Ok(WasmValue::I64(val.get_i64())),
                _ => Err(WasmRuntimeError::InvalidParameter),
            }
        } else {
            Ok(WasmValue::Empty)
        }
    }

    /// Takes the arguments of a call from the top of the operand stack, one
    /// per parameter type, each read at its type.
    fn take_args(value_stack: &mut Vec<WasmStackValue>, param_types: &[WasmValType]) -> (r: Result<
        Vec<WasmValue>,
        WasmRuntimeError,
    >)
        ensures
            old(value_stack)@.len() < param_types@.len() ==> r == Err::<
                Vec<WasmValue>,
                WasmRuntimeError,
            >(WasmRuntimeError::InternalInconsistency),
            old(value_stack)@.len() >= param_types@.len() ==> r is Ok && r->Ok_0@ == call_args(
                old(value_stack)@,
                param_types@,
            ) && final(value_stack)@ == old(value_stack)@.take(
                old(value_stack)@.len() - param_types@.len(),
            ),
    {
        let param_len: usize = param_types.len();
        if value_stack.len() < param_len {
            return Err(WasmRuntimeError::InternalInconsistency);
        }
        let new_stack_len: usize = value_stack.len() - param_len;
        let mut args: Vec<WasmValue> = Vec::new();
        let mut i: usize = 0;
        while i < param_len
            invariant
                i <= param_len,
                param_len == param_types@.len(),
                new_stack_len + param_len == value_stack@.len(),
                new_stack_len + param_len <= usize::MAX,
                value_stack@ == old(value_stack)@,
                args@ =~= Seq::new(
                    i as nat,
                    |k: int| value_stack@[new_stack_len + k].spec_get_by_type(param_types@[k]),
                ),
            decreases param_len - i,
        {
            args.push(value_stack[new_stack_len + i].get_by_type(param_types[i]));
            i = i + 1;
        }
        value_stack.truncate(new_stack_len);
        assert(args@ =~= call_args(old(value_stack)@, param_types@));
        Ok(args)
    }

    /// Puts what a callee has returned on the caller's stack: the value,
    /// unless it is the absent value.
    fn push_returned(value_stack: &mut Vec<WasmStackValue>, v: WasmValue)
        ensures
            final(value_stack)@ == (if v == WasmValue::Empty {
                old(value_stack)@
            } else {
                old(value_stack)@.push(WasmStackValue::spec_from_value(v))
            }),
    {
        if !v.is_empty() {
            value_stack.push(WasmStackValue::from(v));
        }
    }

    /// Calls the function `index` with the arguments on top of the operand
    /// stack, and pushes what it returns.
    fn call<H: Fn(usize, &WasmModule, &[WasmValue]) -> Result<WasmValue, WasmRuntimeError>>(
        index: usize,
        value_stack: &mut Vec<WasmStackValue>,
        module: &mut WasmModule,
        host: &H,
        budget: &mut u64,
    ) -> (r: Result<(), WasmRuntimeError>)
        requires
            host_accepts_all(host),
        ensures
            *final(budget) <= *old(budget),
            image_kept(*final(module), *old(module)),
            host_is_function(host) ==> ({
                let sub = spec_call(
                    host_model(host),
                    old(module)@,
                    index,
                    old(value_stack)@,
                    *old(budget) as nat,
                );
                &&& final(module)@ == sub.module
                &&& *final(budget) == sub.budget
                &&& match sub.result {
                    Err(e) => r == Err::<(), WasmRuntimeError>(e),
                    Ok(v) => r is Ok && final(value_stack)@ == push_result(
                        WasmFrame {
                            pc: 0,
                            stack: old(value_stack)@.take(
                                old(value_stack)@.len() - callee_params(old(module)@, index).len(),
                            ),
                            locals: Seq::empty(),
                            blocks: Seq::empty(),
                        },
                        v,
                    ).stack,
                }
            }),
        decreases *old(budget), 2nat,
    {
        if index >= module.functions.len() {
            return Err(WasmRuntimeError::InternalInconsistency);
        }
        let func: &WasmFunction = &module.functions[index];
        assert(module@.functions[index as int] == func@);
        let result: WasmValue = match &func.import {
            Some(import) => {
                let handle: usize = import.handle;
                let args: Vec<WasmValue> = Self::take_args(value_stack, func.param_types.as_slice())?;
                let params: &[WasmValue] = args.as_slice();
                let answer = host(handle, &*module, params);
                proof {
                    assert(host_may_return(host, handle, module@, args@, answer));
                }
                answer?
            },
            None => match &func.body {
                None => { return Err(WasmRuntimeError::InternalInconsistency); },
                Some(b) => {
                    let body: Rc<WasmFunctionBody> = Rc::clone(b);
                    let mut locals: Vec<WasmValue> = Self::take_args(
                        value_stack,
                        body.param_types.as_slice(),
                    )?;
                    let ghost args = locals@;
                    let mut i: usize = 0;
                    while i < body.local_types.len()
                        invariant
                            i <= body.local_types@.len(),
                            locals@ =~= args + Seq::new(
                                i as nat,
                                |k: int| WasmValue::spec_default_for(body.local_types@[k]),
                            ),
                        decreases body.local_types@.len() - i,
                    {
                        locals.push(WasmValue::default_for(body.local_types[i]));
                        i = i + 1;
                    }
                    let mut code_block = WasmCodeBlock::from_slice(
                        body.code.as_slice(),
                        &body.block_info,
                    );
                    Self::run(
                        &mut code_block,
                        locals.as_mut_slice(),
                        body.result_types.as_slice(),
                        module,
                        host,
                        budget,
                    )?
                },
            },
        };
        Self::push_returned(value_stack, result);
        Ok(())
    }

    /// Interprets a function body as one activation.
    ///
    /// The activation starts at the beginning of the bytecode with `locals` as
    /// its parameters and declared locals and with an empty operand stack, and
    /// runs until a `return`, the `end` that closes the body, or a trap. Every
    /// instruction takes one unit of `budget`; when none is left the
    /// invocation traps `BudgetExhausted`. A call to an import asks `host`,
    /// with the handle that the linker gave for the import.
    ///
    /// The result, the module and the budget that are left are those that the
    /// machine of `spec_run` computes, whenever the host is deterministic:
    /// with a deterministic host, two runs from the same state end alike.
    /// After a trap the module holds every write made before it. Whatever the
    /// host answers, the run changes nothing of the module but the contents
    /// of its memory and the values of its globals.
    pub fn run<H: Fn(usize, &WasmModule, &[WasmValue]) -> Result<WasmValue, WasmRuntimeError>>(
        code_block: &mut WasmCodeBlock,
        locals: &mut [WasmValue],
        result_types: &[WasmValType],
        module: &mut WasmModule,
        host: &H,
        budget: &mut u64,
    ) -> (r: Result<WasmValue, WasmRuntimeError>)
        requires
            host_accepts_all(host),
        ensures
            final(locals)@ == old(locals)@,
            final(code_block).code.blob@ == old(code_block).code.blob@,
            final(code_block).info == old(code_block).info,
            *final(budget) <= *old(budget),
            image_kept(*final(module), *old(module)),
            host_is_function(host) ==> ends_as(
                spec_run(
                    host_model(host),
                    old(code_block).code.blob@,
                    old(code_block).info@.blocks,
                    old(locals)@,
                    result_types@,
                    old(module)@,
                    *old(budget) as nat,
                ),
                r,
                final(module)@,
                *final(budget),
            ),
        decreases *old(budget), 1nat,
    {
        let mut cells: Vec<WasmStackValue> = Vec::new();
        let mut k: usize = 0;
        while k < locals.len()
            invariant
                k <= locals@.len(),
                locals@ == old(locals)@,
                cells@ =~= Seq::new(k as nat, |i: int| WasmStackValue::spec_from_value(locals@[i])),
            decreases locals@.len() - k,
        {
            cells.push(WasmStackValue::from(locals[k]));
            k = k + 1;
        }
        let mut value_stack: Vec<WasmStackValue> = Vec::with_capacity(
            Self::reserve(code_block.info().max_stack()),
        );
        let mut block_stack: Vec<usize> = Vec::with_capacity(
            Self::reserve(code_block.info().max_block_level()),
        );

        code_block.reset();
        let ghost model = host_model(host);
        let ghost code = code_block.code.blob@;
        let ghost blocks = code_block.info@.blocks;
        let ghost goal = spec_exec(
            model,
            code,
            blocks,
            old(module)@,
            initial_frame(old(locals)@),
            *old(budget) as nat,
        );
        assert(frame_of(code_block, value_stack@, cells@, block_stack@) =~= initial_frame(
            old(locals)@,
        ));
        loop
            invariant
                host_accepts_all(host),
                model == host_model(host),
                locals@ == old(locals)@,
                code_block.code.blob@ == code,
                code_block.info == old(code_block).info,
                code_block.info@.blocks == blocks,
                *budget <= *old(budget),
                image_kept(*module, *old(module)),
                host_is_function(host) ==> spec_exec(
                    model,
                    code,
                    blocks,
                    module@,
                    frame_of(code_block, value_stack@, cells@, block_stack@),
                    *budget as nat,
                ) == goal,
                goal == spec_exec(
                    model,
                    code,
                    blocks,
                    old(module)@,
                    initial_frame(old(locals)@),
                    *old(budget) as nat,
                ),
                code == old(code_block).code.blob@,
                blocks == old(code_block).info@.blocks,
            decreases *budget,
        {
            if *budget == 0 {
                return Err(WasmRuntimeError::BudgetExhausted);
            }
            let ghost before = frame_of(code_block, value_stack@, cells@, block_stack@);
            let ghost m0 = module@;
            let ghost b0 = *budget as nat;
            *budget = *budget - 1;
            let flow: WasmFlow = Self::step(
                code_block,
                &mut cells,
                &mut value_stack,
                &mut block_stack,
                module,
            )?;
            match flow {
                WasmFlow::Continue => {},
                WasmFlow::Finish => {
                    return Self::finish(&mut value_stack, result_types);
                },
                WasmFlow::Call(index) => {
                    let ghost caller = frame_of(code_block, value_stack@, cells@, block_stack@);
                    Self::call(index, &mut value_stack, module, host, budget)?;
                    proof {
                        if host_is_function(host) {
                            let sub = spec_call(model, m0, index, caller.stack, (b0 - 1) as nat);
                            let v = sub.result->Ok_0;
                            let params = callee_params(m0, index);
                            assert(frame_of(code_block, value_stack@, cells@, block_stack@)
                                =~= push_result(
                                WasmFrame {
                                    stack: caller.stack.take(caller.stack.len() - params.len()),
                                    ..caller
                                },
                                v,
                            ));
                        }
                    }
                },
            }
        }
    }
}

impl WasmModule {
    /// Invokes the function `index` with the arguments `params`.
    ///
    /// The index is one that `func` gave for an export, or any index into the
    /// function table. The number of arguments must be the number of
    /// parameters of the function, else the invocation fails with
    /// `InvalidParameter`. `budget` is the number of instructions that the
    /// invocation may execute.
    ///
    /// With a deterministic host the result, the module and the budget that
    /// are left are those of `spec_invoke`.
    pub fn invoke<H: Fn(usize, &WasmModule, &[WasmValue]) -> Result<WasmValue, WasmRuntimeError>>(
        &mut self,
        index: usize,
        params: &[WasmValue],
        host: &H,
        budget: &mut u64,
    ) -> (r: Result<WasmValue, WasmRuntimeError>)
        requires
            host_accepts_all(host),
        ensures
            *final(budget) <= *old(budget),
            image_kept(*final(self), *old(self)),
            host_is_function(host) ==> ends_as(
                spec_invoke(host_model(host), old(self)@, index, params@, *old(budget) as nat),
                r,
                final(self)@,
                *final(budget),
            ),
    {
        if index >= self.functions.len() {
            return Err(WasmRuntimeError::InvalidParameter);
        }
        let func: &WasmFunction = &self.functions[index];
        assert(self@.functions[index as int] == func@);
        if params.len() != func.param_types.len() {
            return Err(WasmRuntimeError::InvalidParameter);
        }
        match &func.import {
            Some(import) => {
                let handle: usize = import.handle;
                let answer = host(handle, &*self, params);
                proof {
                    assert(host_may_return(host, handle, self@, params@, answer));
                }
                answer
            },
            None => match &func.body {
                None => Err(WasmRuntimeError::InternalInconsistency),
                Some(b) => {
                    let body: Rc<WasmFunctionBody> = Rc::clone(b);
                    let mut locals: Vec<WasmValue> = vstd::slice::slice_to_vec(params);
                    let mut i: usize = 0;
                    while i < body.local_types.len()
                        invariant
                            i <= body.local_types@.len(),
                            locals@ =~= params@ + Seq::new(
                                i as nat,
                                |k: int| WasmValue::spec_default_for(body.local_types@[k]),
                            ),
                        decreases body.local_types@.len() - i,
                    {
                        locals.push(WasmValue::default_for(body.local_types[i]));
                        i = i + 1;
                    }
                    let mut code_block = WasmCodeBlock::from_slice(
                        body.code.as_slice(),
                        &body.block_info,
                    );
                    WasmInterpreter::run(
                        &mut code_block,
                        locals.as_mut_slice(),
                        body.result_types.as_slice(),
                        self,
                        host,
                        budget,
                    )
                },
            },
        }
    }
}

} // verus!
