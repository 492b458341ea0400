//! The block pre-analyzer: one forward pass over a function body that finds
//! where every block ends and how deep the operand stack is at its entry.

use crate::block::{BlockInstType, WasmBlockContext, WasmBlockInfo, WasmBlockInfoView};
use crate::error::WasmDecodeError;
use crate::leb128::{spec_read_bytes, spec_read_sint, spec_read_uint, Leb128Stream};
use crate::module::{WasmModule, WasmModuleView};
use crate::opcode::{WasmOpcode, WasmOperand};
use crate::types::{WasmBlockType, WasmValType};
use std::collections::HashMap;
use vstd::prelude::*;

verus! {

/// A block that the scan has entered and not yet left.
#[derive(Clone, Copy, Debug, PartialEq, Eq, Structural)]
pub struct WasmOpenBlock {
    /// The position that will key the block in the table: the offset after
    /// the opening opcode and its signature.
    pub key: usize,
    /// What is known of the block so far.
    pub ctx: WasmBlockContext,
}

/// The state of the scan between two instructions.
#[verifier::ext_equal]
pub struct WasmScan {
    /// The simulated depth of the operand stack.
    pub depth: usize,
    /// The greatest simulated depth so far.
    pub max_stack: usize,
    /// The greatest number of open blocks so far.
    pub max_block_level: usize,
    /// The open blocks, innermost last.
    pub open: Seq<WasmOpenBlock>,
    /// The blocks that have been closed.
    pub blocks: Map<usize, WasmBlockContext>,
}

/// The greater of two numbers.
pub open spec fn max_of(a: usize, b: usize) -> usize {
    if a >= b {
        a
    } else {
        b
    }
}

/// `depth` after `pops` cells have been taken and `pushes` cells added. The
/// depth does not fall below zero nor rise above what the machine can count.
pub open spec fn depth_after(depth: usize, pops: nat, pushes: nat) -> usize {
    let low = if pops >= depth {
        0
    } else {
        depth - pops
    };
    if low + pushes > usize::MAX {
        usize::MAX
    } else {
        (low + pushes) as usize
    }
}

impl WasmScan {
    /// The state in which a scan starts.
    pub open spec fn initial() -> WasmScan {
        WasmScan {
            depth: 0,
            max_stack: 0,
            max_block_level: 0,
            open: Seq::empty(),
            blocks: Map::empty(),
        }
    }

    /// The state after an instruction that takes `pops` cells and adds
    /// `pushes` cells.
    pub open spec fn effect(self, pops: nat, pushes: nat) -> WasmScan {
        let d = depth_after(self.depth, pops, pushes);
        WasmScan { depth: d, max_stack: max_of(self.max_stack, d), ..self }
    }

    /// The block table that the scan has built.
    pub open spec fn info(self) -> WasmBlockInfoView {
        WasmBlockInfoView {
            max_stack: self.max_stack,
            max_block_level: self.max_block_level,
            blocks: self.blocks,
        }
    }
}

/// The position after `n` unsigned LEB128 integers from `pos` on.
pub open spec fn scan_uints(code: Seq<u8>, pos: int, n: nat) -> Result<int, WasmDecodeError>
    decreases n,
{
    if n == 0 {
        Ok(pos)
    } else {
        match spec_read_uint(code, pos) {
            Err(e) => Err(e),
            Ok((_, p)) => scan_uints(code, p, (n - 1) as nat),
        }
    }
}

/// The position after the immediates of the given kind that start at `pos`.
pub open spec fn scan_operand(code: Seq<u8>, pos: int, kind: WasmOperand) -> Result<
    int,
    WasmDecodeError,
> {
    match kind {
        WasmOperand::Plain => Ok(pos),
        WasmOperand::BlockType => if !(0 <= pos < code.len()) {
            Err(WasmDecodeError::UnexpectedEof)
        } else if WasmBlockType::spec_from_u8(code[pos]) is None {
            Err(WasmDecodeError::InvalidBytecode)
        } else {
            Ok(pos + 1)
        },
        WasmOperand::Index => scan_uints(code, pos, 1),
        WasmOperand::BrTable => match spec_read_uint(code, pos) {
            Err(e) => Err(e),
            Ok((count, p)) => scan_uints(code, p, count as nat + 1),
        },
        WasmOperand::CallIndirect => scan_uints(code, pos, 2),
        WasmOperand::MemArg => scan_uints(code, pos, 2),
        WasmOperand::Integer => match spec_read_sint(code, pos) {
            Err(e) => Err(e),
            Ok((_, p)) => Ok(p),
        },
        WasmOperand::Bytes4 => match spec_read_bytes(code, pos, 4) {
            Err(e) => Err(e),
            Ok((_, p)) => Ok(p),
        },
        WasmOperand::Bytes8 => match spec_read_bytes(code, pos, 8) {
            Err(e) => Err(e),
            Ok((_, p)) => Ok(p),
        },
    }
}

/// What the scan makes of the instruction at `pos`: the state after it, the
/// position after it, and whether it was the `end` that closes the body.
///
/// A block is entered at its opening opcode; an `if` takes its condition
/// first. An `else` sets the depth back to that at the entry of its `if`. An
/// `end` closes the innermost block, which then has its signature's number of
/// results above its entry depth; with no block open it closes the body and
/// must be the last byte. Every other instruction moves the depth by what it
/// takes and adds; a call by the parameters and results of its callee.
#[verifier::opaque]
pub open spec fn scan_instr(code: Seq<u8>, pos: int, s: WasmScan, m: WasmModuleView) -> Result<
    (WasmScan, int, bool),
    WasmDecodeError,
> {
    if !(0 <= pos < code.len()) {
        Err(WasmDecodeError::UnexpectedEof)
    } else {
        match WasmOpcode::spec_from_u8(code[pos]) {
            None => Err(WasmDecodeError::InvalidBytecode),
            Some(op) => {
                let p = pos + 1;
                match op {
                    WasmOpcode::Block | WasmOpcode::Loop | WasmOpcode::If => match scan_operand(
                        code,
                        p,
                        WasmOperand::BlockType,
                    ) {
                        Err(e) => Err(e),
                        Ok(q) => {
                            let s1 = if op == WasmOpcode::If {
                                s.effect(1, 0)
                            } else {
                                s
                            };
                            let entry = WasmOpenBlock {
                                key: q as usize,
                                ctx: WasmBlockContext {
                                    inst_type: if op == WasmOpcode::Block {
                                        BlockInstType::Block
                                    } else if op == WasmOpcode::Loop {
                                        BlockInstType::Loop
                                    } else {
                                        BlockInstType::If
                                    },
                                    block_type: WasmBlockType::spec_from_u8(code[p]).unwrap(),
                                    stack_level: s1.depth,
                                    start_position: pos as usize,
                                    end_position: 0,
                                    else_position: 0,
                                },
                            };
                            Ok(
                                (
                                    WasmScan {
                                        open: s1.open.push(entry),
                                        max_block_level: max_of(
                                            s1.max_block_level,
                                            (s1.open.len() + 1) as usize,
                                        ),
                                        ..s1
                                    },
                                    q,
                                    false,
                                ),
                            )
                        },
                    },
                    WasmOpcode::Else => if s.open.len() == 0 || s.open.last().ctx.inst_type
                        != BlockInstType::If {
                        Err(WasmDecodeError::InvalidBytecode)
                    } else {
                        let e = s.open.last();
                        Ok(
                            (
                                WasmScan {
                                    depth: e.ctx.stack_level,
                                    open: s.open.drop_last().push(
                                        WasmOpenBlock {
                                            key: e.key,
                                            ctx: WasmBlockContext { else_position: p as usize, ..e.ctx },
                                        },
                                    ),
                                    ..s
                                },
                                p,
                                false,
                            ),
                        )
                    },
                    WasmOpcode::End => if s.open.len() == 0 {
                        if p == code.len() {
                            Ok((s, p, true))
                        } else {
                            Err(WasmDecodeError::InvalidBytecode)
                        }
                    } else {
                        let e = s.open.last();
                        let d = depth_after(e.ctx.stack_level, 0, e.ctx.block_type.spec_arity());
                        Ok(
                            (
                                WasmScan {
                                    depth: d,
                                    max_stack: max_of(s.max_stack, d),
                                    max_block_level: s.max_block_level,
                                    open: s.open.drop_last(),
                                    blocks: s.blocks.insert(
                                        e.key,
                                        WasmBlockContext { end_position: p as usize, ..e.ctx },
                                    ),
                                },
                                p,
                                false,
                            ),
                        )
                    },
                    WasmOpcode::Call => match spec_read_uint(code, p) {
                        Err(e) => Err(e),
                        Ok((index, q)) => if index >= m.functions.len() {
                            Err(WasmDecodeError::InvalidParameter)
                        } else {
                            let f = m.functions[index as int];
                            Ok((s.effect(f.param_types.len(), f.result_types.len()), q, false))
                        },
                    },
                    WasmOpcode::CallIndirect => match spec_read_uint(code, p) {
                        Err(e) => Err(e),
                        Ok((index, q)) => match spec_read_uint(code, q) {
                            Err(e) => Err(e),
                            Ok((_, r)) => if index >= m.types.len() {
                                Err(WasmDecodeError::InvalidParameter)
                            } else {
                                let t = m.types[index as int];
                                Ok((s.effect(1, 0).effect(t.params.len(), t.results.len()), r, false))
                            },
                        },
                    },
                    _ => match scan_operand(code, p, op.spec_operand()) {
                        Err(e) => Err(e),
                        Ok(q) => Ok((s.effect(op.spec_pops(), op.spec_pushes()), q, false)),
                    },
                }
            },
        }
    }
}

/// The block table that the scan builds when it goes on from `pos` in the
/// state `s`, or the error at which it stops.
pub open spec fn scan_from(code: Seq<u8>, pos: int, s: WasmScan, m: WasmModuleView) -> Result<
    WasmBlockInfoView,
    WasmDecodeError,
>
    decreases code.len() - pos,
{
    match scan_instr(code, pos, s, m) {
        Err(e) => Err(e),
        Ok((s2, next, finished)) => if finished {
            Ok(s2.info())
        } else if next <= pos || next > code.len() {
            Err(WasmDecodeError::InvalidBytecode)
        } else {
            scan_from(code, next, s2, m)
        },
    }
}

/// The block table of the function body that `code` holds from `pos` on.
pub open spec fn spec_analyze(code: Seq<u8>, pos: int, m: WasmModuleView) -> Result<
    WasmBlockInfoView,
    WasmDecodeError,
> {
    scan_from(code, pos, WasmScan::initial(), m)
}

/// Skips `n` unsigned LEB128 integers.
fn skip_uints(stream: &mut Leb128Stream, n: u64) -> (r: Result<(), WasmDecodeError>)
    ensures
        final(stream).blob@ == old(stream).blob@,
        match scan_uints(old(stream).blob@, old(stream).position as int, n as nat) {
            Ok(p) => r is Ok && final(stream).position == p && old(stream).position <= p && (n > 0
                ==> old(stream).position < p <= old(stream).blob@.len()),
            Err(e) => r == Err::<(), WasmDecodeError>(e),
        },
{
    let mut i: u64 = 0;
    while i < n
        invariant
            i <= n,
            stream.blob@ == old(stream).blob@,
            old(stream).position <= stream.position,
            i > 0 ==> old(stream).position < stream.position <= stream.blob@.len(),
            i == 0 ==> stream.position == old(stream).position,
            scan_uints(old(stream).blob@, old(stream).position as int, n as nat) == scan_uints(
                stream.blob@,
                stream.position as int,
                (n - i) as nat,
            ),
        decreases n - i,
    {
        let _ = stream.read_uint()?;
        i = i + 1;
    }
    Ok(())
}

/// Skips the immediates of the given kind.
fn skip_operand(stream: &mut Leb128Stream, kind: WasmOperand) -> (r: Result<(), WasmDecodeError>)
    ensures
        final(stream).blob@ == old(stream).blob@,
        match scan_operand(old(stream).blob@, old(stream).position as int, kind) {
            Ok(p) => r is Ok && final(stream).position == p && old(stream).position <= p && (p
                == old(stream).position || p <= old(stream).blob@.len()),
            Err(e) => r == Err::<(), WasmDecodeError>(e),
        },
{
    match kind {
        WasmOperand::Plain => Ok(()),
        WasmOperand::BlockType => {
            let b: u8 = stream.read_u8()?;
            match WasmBlockType::from_u8(b) {
                Some(_) => Ok(()),
                None => Err(WasmDecodeError::InvalidBytecode),
            }
        },
        WasmOperand::Index => skip_uints(stream, 1),
        WasmOperand::BrTable => {
            let count: u64 = stream.read_uint()?;
            proof {
                reveal_with_fuel(scan_uints, 2);
                lemma_scan_uints_split(stream.blob@, stream.position as int, count as nat, 1);
            }
            skip_uints(stream, count)?;
            skip_uints(stream, 1)
        },
        WasmOperand::CallIndirect => skip_uints(stream, 2),
        WasmOperand::MemArg => skip_uints(stream, 2),
        WasmOperand::Integer => {
            let _ = stream.read_sint()?;
            Ok(())
        },
        WasmOperand::Bytes4 => {
            let _ = stream.read_bytes(4)?;
            Ok(())
        },
        WasmOperand::Bytes8 => {
            let _ = stream.read_bytes(8)?;
            Ok(())
        },
    }
}

/// Skipping `a + b` integers is skipping `a` and then `b`.
pub proof fn lemma_scan_uints_split(code: Seq<u8>, pos: int, a: nat, b: nat)
    ensures
        scan_uints(code, pos, a + b) == (match scan_uints(code, pos, a) {
            Err(e) => Err::<int, WasmDecodeError>(e),
            Ok(p) => scan_uints(code, p, b),
        }),
    decreases a,
{
    if a == 0 {
    } else {
        match spec_read_uint(code, pos) {
            Err(e) => {},
            Ok((_, p)) => {
                lemma_scan_uints_split(code, p, (a - 1) as nat, b);
                assert((a - 1) as nat + b == (a + b - 1) as nat);
            },
        }
    }
}

/// `depth` after `pops` cells have been taken and `pushes` cells added.
fn apply_effect(depth: usize, pops: usize, pushes: usize) -> (r: usize)
    ensures
        r == depth_after(depth, pops as nat, pushes as nat),
{
    depth.saturating_sub(pops).saturating_add(pushes)
}

/// The greater of two numbers.
fn larger(a: usize, b: usize) -> (r: usize)
    ensures
        r == max_of(a, b),
{
    if a >= b {
        a
    } else {
        b
    }
}

/// The scan in progress: its state between two instructions.
pub struct WasmScanner {
    pub depth: usize,
    pub max_stack: usize,
    pub max_block_level: usize,
    pub open: Vec<WasmOpenBlock>,
    pub blocks: HashMap<usize, WasmBlockContext>,
}

impl View for WasmScanner {
    type V = WasmScan;

    open spec fn view(&self) -> WasmScan {
        WasmScan {
            depth: self.depth,
            max_stack: self.max_stack,
            max_block_level: self.max_block_level,
            open: self.open@,
            blocks: self.blocks@,
        }
    }
}

/// Whether the scanner did what `scan_instr` says of the instruction at
/// `pos`: `r` is what it answered, `s` the state and `next` the position that
/// it left.
pub open spec fn scan_matches(
    expected: Result<(WasmScan, int, bool), WasmDecodeError>,
    r: Result<bool, WasmDecodeError>,
    s: WasmScan,
    next: int,
) -> bool {
    match expected {
        Ok((s2, q, finished)) => r == Ok::<bool, WasmDecodeError>(finished) && s =~= s2 && next == q,
        Err(e) => r == Err::<bool, WasmDecodeError>(e),
    }
}

impl WasmScanner {
    /// A scanner at the start of a function body.
    fn new() -> (r: WasmScanner)
        ensures
            r@ =~= WasmScan::initial(),
    {
        WasmScanner {
            depth: 0,
            max_stack: 0,
            max_block_level: 0,
            open: Vec::new(),
            blocks: HashMap::new(),
        }
    }

    /// Moves the depth by what an instruction takes and adds.
    fn effect(&mut self, pops: usize, pushes: usize)
        ensures
            final(self)@ =~= old(self)@.effect(pops as nat, pushes as nat),
    {
        self.depth = apply_effect(self.depth, pops, pushes);
        self.max_stack = larger(self.max_stack, self.depth);
    }

    /// Enters a block: `position` is the offset of the opening opcode, which
    /// has been read.
    fn enter(&mut self, opcode: WasmOpcode, stream: &mut Leb128Stream, position: usize) -> (r:
        Result<bool, WasmDecodeError>)
        requires
            opcode == WasmOpcode::Block || opcode == WasmOpcode::Loop || opcode == WasmOpcode::If,
            old(stream).position == position + 1,
            position < old(stream).blob@.len(),
            WasmOpcode::spec_from_u8(old(stream).blob@[position as int]) == Some(opcode),
            old(self).open@.len() <= position,
        ensures
            final(stream).blob@ == old(stream).blob@,
            scan_matches(
                scan_instr(old(stream).blob@, position as int, old(self)@, arbitrary()),
                r,
                final(self)@,
                final(stream).position as int,
            ),
            r is Ok ==> position < final(stream).position <= final(stream).blob@.len() && final(self).open@.len() <= final(stream).position,
    {
        proof {
            reveal(scan_instr);
        }
        let total: usize = stream.blob.len();
        let sig: u8 = stream.read_u8()?;
        let block_type: WasmBlockType = match WasmBlockType::from_u8(sig) {
            Some(t) => t,
            None => { return Err(WasmDecodeError::InvalidBytecode); },
        };
        let inst_type: BlockInstType = match opcode {
            WasmOpcode::Block => BlockInstType::Block,
            WasmOpcode::Loop => BlockInstType::Loop,
            _ => {
                self.effect(1, 0);
                BlockInstType::If
            },
        };
        self.open.push(
            WasmOpenBlock {
                key: stream.fetch_position(),
                ctx: WasmBlockContext {
                    inst_type,
                    block_type,
                    stack_level: self.depth,
                    start_position: position,
                    end_position: 0,
                    else_position: 0,
                },
            },
        );
        self.max_block_level = larger(self.max_block_level, self.open.len());
        Ok(false)
    }

    /// Passes an `else`, which has been read at `position`.
    fn turn(&mut self, stream: &Leb128Stream, position: usize) -> (r: Result<bool, WasmDecodeError>)
        requires
            stream.position == position + 1,
            position < stream.blob@.len(),
            WasmOpcode::spec_from_u8(stream.blob@[position as int]) == Some(WasmOpcode::Else),
        ensures
            scan_matches(
                scan_instr(stream.blob@, position as int, old(self)@, arbitrary()),
                r,
                final(self)@,
                stream.position as int,
            ),
            final(self).open@.len() == old(self).open@.len(),
    {
        proof {
            reveal(scan_instr);
        }
        let n: usize = self.open.len();
        if n == 0 {
            return Err(WasmDecodeError::InvalidBytecode);
        }
        let entry: WasmOpenBlock = self.open[n - 1];
        match entry.ctx.inst_type {
            BlockInstType::If => {},
            _ => { return Err(WasmDecodeError::InvalidBytecode); },
        }
        self.open[n - 1] = WasmOpenBlock {
            key: entry.key,
            ctx: WasmBlockContext {
                inst_type: entry.ctx.inst_type,
                block_type: entry.ctx.block_type,
                stack_level: entry.ctx.stack_level,
                start_position: entry.ctx.start_position,
                end_position: entry.ctx.end_position,
                else_position: stream.fetch_position(),
            },
        };
        self.depth = entry.ctx.stack_level;
        assert(self.open@ =~= old(self).open@.drop_last().push(self.open@[n - 1]));
        Ok(false)
    }

    /// Passes an `end`, which has been read at `position`.
    fn leave(&mut self, stream: &Leb128Stream, position: usize) -> (r: Result<bool, WasmDecodeError>)
        requires
            stream.position == position + 1,
            position < stream.blob@.len(),
            WasmOpcode::spec_from_u8(stream.blob@[position as int]) == Some(WasmOpcode::End),
        ensures
            scan_matches(
                scan_instr(stream.blob@, position as int, old(self)@, arbitrary()),
                r,
                final(self)@,
                stream.position as int,
            ),
            final(self).open@.len() <= old(self).open@.len(),
    {
        proof {
            reveal(scan_instr);
        }
        match self.open.pop() {
            None => {
                if stream.fetch_position() == stream.blob.len() {
                    Ok(true)
                } else {
                    Err(WasmDecodeError::InvalidBytecode)
                }
            },
            Some(entry) => {
                self.depth = apply_effect(entry.ctx.stack_level, 0, entry.ctx.block_type.arity());
                self.max_stack = larger(self.max_stack, self.depth);
                self.blocks.insert(
                    entry.key,
                    WasmBlockContext {
                        inst_type: entry.ctx.inst_type,
                        block_type: entry.ctx.block_type,
                        stack_level: entry.ctx.stack_level,
                        start_position: entry.ctx.start_position,
                        end_position: stream.fetch_position(),
                        else_position: entry.ctx.else_position,
                    },
                );
                Ok(false)
            },
        }
    }

    /// Passes a `call` or a `call_indirect`, which has been read at
    /// `position`.
    fn call(
        &mut self,
        opcode: WasmOpcode,
        stream: &mut Leb128Stream,
        position: usize,
        module: &WasmModule,
    ) -> (r: Result<bool, WasmDecodeError>)
        requires
            opcode == WasmOpcode::Call || opcode == WasmOpcode::CallIndirect,
            old(stream).position == position + 1,
            position < old(stream).blob@.len(),
            WasmOpcode::spec_from_u8(old(stream).blob@[position as int]) == Some(opcode),
        ensures
            final(stream).blob@ == old(stream).blob@,
            scan_matches(
                scan_instr(old(stream).blob@, position as int, old(self)@, module@),
                r,
                final(self)@,
                final(stream).position as int,
            ),
            final(self).open@ == old(self).open@,
            r is Ok ==> position < final(stream).position <= final(stream).blob@.len(),
    {
        proof {
            reveal(scan_instr);
        }
        let index: u64 = stream.read_uint()?;
        match opcode {
            WasmOpcode::Call => {
                if index >= module.functions.len() as u64 {
                    return Err(WasmDecodeError::InvalidParameter);
                }
                let func = &module.functions[index as usize];
                assert(module@.functions[index as int] == func@);
                self.effect(func.param_types.len(), func.result_types.len());
            },
            _ => {
                let _ = stream.read_uint()?;
                if index >= module.types.len() as u64 {
                    return Err(WasmDecodeError::InvalidParameter);
                }
                let func_type = &module.types[index as usize];
                assert(module@.types[index as int] == func_type@);
                self.effect(1, 0);
                self.effect(func_type.params.len(), func_type.results.len());
            },
        }
        Ok(false)
    }

    /// Passes the instruction at the cursor. `true` where it was the `end`
    /// that closes the body.
    fn instr(&mut self, stream: &mut Leb128Stream, module: &WasmModule) -> (r: Result<
        bool,
        WasmDecodeError,
    >)
        requires
            old(self).open@.len() <= old(stream).position,
        ensures
            final(stream).blob@ == old(stream).blob@,
            scan_matches(
                scan_instr(old(stream).blob@, old(stream).position as int, old(self)@, module@),
                r,
                final(self)@,
                final(stream).position as int,
            ),
            r is Ok ==> old(stream).position < final(stream).position <= final(stream).blob@.len()
                && final(self).open@.len() <= final(stream).position,
            r == Ok::<bool, WasmDecodeError>(true) ==> final(stream).position == final(stream).blob@.len(),
    {
        proof {
            reveal(scan_instr);
        }
        let position: usize = stream.fetch_position();
        let byte: u8 = stream.read_u8()?;
        let opcode: WasmOpcode = match WasmOpcode::from_u8(byte) {
            Some(op) => op,
            None => { return Err(WasmDecodeError::InvalidBytecode); },
        };
        match opcode {
            WasmOpcode::Block | WasmOpcode::Loop | WasmOpcode::If => self.enter(
                opcode,
                stream,
                position,
            ),
            WasmOpcode::Else => self.turn(stream, position),
            WasmOpcode::End => self.leave(stream, position),
            WasmOpcode::Call | WasmOpcode::CallIndirect => self.call(opcode, stream, position, module),
            _ => {
                skip_operand(stream, opcode.operand())?;
                self.effect(opcode.pops(), opcode.pushes());
                Ok(false)
            },
        }
    }
}

impl WasmBlockInfo {
    /// Scans the function body that `code_block` holds from its cursor on
    /// and builds its block table.
    ///
    /// The scan fails with `UnexpectedEof` where the bytecode ends inside an
    /// instruction or before the `end` that closes the body, with
    /// `InvalidBytecode` at an unknown opcode, an unknown block signature, an
    /// `else` that does not belong to an `if` and an `end` that closes the
    /// body before its last byte, and with `InvalidParameter` at a call whose
    /// function or type index is outside the module's tables. A malformed
    /// immediate fails as the reader says.
    ///
    /// The scan follows depths only: `local_types` and `result_types`, the
    /// declared locals and results of the function, are not held against
    /// the code.
    pub fn analyze(
        code_block: &mut Leb128Stream,
        local_types: &[WasmValType],
        result_types: &[WasmValType],
        module: &WasmModule,
    ) -> (r: Result<WasmBlockInfo, WasmDecodeError>)
        ensures
            final(code_block).blob@ == old(code_block).blob@,
            match spec_analyze(old(code_block).blob@, old(code_block).position as int, module@) {
                Ok(v) => r is Ok && r->Ok_0@ == v && final(code_block).position == old(code_block).blob@.len(),
                Err(e) => r == Err::<WasmBlockInfo, WasmDecodeError>(e),
            },
    {
        let mut scanner = WasmScanner::new();
        let ghost code = code_block.blob@;
        let ghost goal = spec_analyze(code, code_block.position as int, module@);
        loop
            invariant
                code_block.blob@ == code,
                code == old(code_block).blob@,
                goal == spec_analyze(code, old(code_block).position as int, module@),
                scanner.open@.len() <= code_block.position,
                scan_from(code, code_block.position as int, scanner@, module@) == goal,
            decreases code.len() - code_block.position,
        {
            if scanner.instr(code_block, module)? {
                return Ok(
                    WasmBlockInfo {
                        max_stack: scanner.max_stack,
                        max_block_level: scanner.max_block_level,
                        blocks: scanner.blocks,
                    },
                );
            }
        }
    }
}

} // verus!
