//! The table of structured blocks of one function body: for every `block`,
//! `loop` and `if`, where it ends, where its `else` is, and what the operand
//! stack looked like when it was entered.

use crate::types::WasmBlockType;
use std::collections::HashMap;
use vstd::prelude::*;

verus! {

/// The instruction that opens a block.
#[derive(Clone, Copy, Debug, PartialEq, Eq, Structural)]
pub enum BlockInstType {
    Block,
    Loop,
    If,
}

/// What is known of one block once the function body has been scanned.
#[derive(Clone, Copy, Debug, PartialEq, Eq, Structural)]
pub struct WasmBlockContext {
    /// Which instruction opens the block.
    pub inst_type: BlockInstType,
    /// The signature of the block.
    pub block_type: WasmBlockType,
    /// The depth of the operand stack at the entry of the block.
    pub stack_level: usize,
    /// The offset of the opening opcode.
    pub start_position: usize,
    /// The offset of the byte after the matching `end`.
    pub end_position: usize,
    /// The offset of the byte after the `else`, or 0 where there is none.
    pub else_position: usize,
}

impl WasmBlockContext {
    /// Where a branch to this block continues: a loop is entered again at its
    /// opening opcode, any other block is left at its end.
    pub open spec fn spec_preferred_target(&self) -> usize {
        if self.inst_type == BlockInstType::Loop {
            self.start_position
        } else {
            self.end_position
        }
    }

    /// Where a branch to this block continues.
    pub fn preferred_target(&self) -> (r: usize)
        ensures
            r == self.spec_preferred_target(),
    {
        match self.inst_type {
            BlockInstType::Loop => self.start_position,
            _ => self.end_position,
        }
    }
}

/// The block table of a function body, keyed by the offset that follows the
/// opening opcode and its signature, with the greatest depths that the scan
/// saw.
pub struct WasmBlockInfo {
    pub max_stack: usize,
    pub max_block_level: usize,
    pub blocks: HashMap<usize, WasmBlockContext>,
}

/// The contents of a block table.
#[verifier::ext_equal]
pub struct WasmBlockInfoView {
    pub max_stack: usize,
    pub max_block_level: usize,
    pub blocks: Map<usize, WasmBlockContext>,
}

impl View for WasmBlockInfo {
    type V = WasmBlockInfoView;

    open spec fn view(&self) -> WasmBlockInfoView {
        WasmBlockInfoView {
            max_stack: self.max_stack,
            max_block_level: self.max_block_level,
            blocks: self.blocks@,
        }
    }
}

/// The entry of a block table at a position, if there is one.
pub open spec fn block_at(blocks: Map<usize, WasmBlockContext>, position: usize) -> Option<
    WasmBlockContext,
> {
    if blocks.contains_key(position) {
        Some(blocks[position])
    } else {
        None
    }
}

impl WasmBlockInfo {
    /// The greatest depth of the operand stack that the scan saw.
    pub fn max_stack(&self) -> (r: usize)
        ensures
            r == self@.max_stack,
    {
        self.max_stack
    }

    /// The greatest nesting of blocks that the scan saw.
    pub fn max_block_level(&self) -> (r: usize)
        ensures
            r == self@.max_block_level,
    {
        self.max_block_level
    }

    /// The entry of the block whose body starts at `position`.
    pub fn block_info(&self, position: usize) -> (r: Option<WasmBlockContext>)
        ensures
            r == block_at(self@.blocks, position),
    {
        match self.blocks.get(&position) {
            Some(c) => Some(*c),
            None => None,
        }
    }
}

} // verus!
