//! The bound on the operand stack: the depth that the pre-analyzer
//! simulates is the depth that the interpreter has, so that no activation
//! of well-stacked code holds more cells than the block table says.

use crate::analyzer::{scan_from, scan_instr, scan_uints, spec_analyze, WasmOpenBlock, WasmScan};
use crate::block::{BlockInstType, WasmBlockContext, WasmBlockInfoView};
use crate::error::WasmDecodeError;
use crate::module::WasmModuleView;
use crate::opcode::WasmOpcode;
use crate::semantics::{
    branch, call_args, callee_params, code_memarg, code_opcode, code_skip, code_uint,
    initial_frame, initial_locals, opcode_group, push_result, spec_call, spec_exec, step, WasmFrame,
    WasmHostModel, WasmOpcodeGroup, WasmStep,
};
use crate::stack::WasmStackValue;
use crate::types::{WasmBlockType, WasmValue};
use vstd::prelude::*;

verus! {

/// The keys of the open blocks, outermost first.
pub open spec fn open_keys(open: Seq<WasmOpenBlock>) -> Seq<usize> {
    open.map_values(|e: WasmOpenBlock| e.key)
}

/// Where the scan of `code` stands after `n` instructions: the position and
/// the state. `None` where the scan has failed or finished before.
pub open spec fn scan_point(code: Seq<u8>, m: WasmModuleView, n: nat) -> Option<(int, WasmScan)>
    decreases n,
{
    if n == 0 {
        Some((0int, WasmScan::initial()))
    } else {
        match scan_point(code, m, (n - 1) as nat) {
            None => None,
            Some((p, s)) => match scan_instr(code, p, s, m) {
                Ok((s2, q, finished)) => if finished || q <= p || q > code.len() {
                    None
                } else {
                    Some((q, s2))
                },
                Err(_) => None,
            },
        }
    }
}

/// Whether control can stand at a point of the scan, as far as the
/// instructions before it tell, and whether it could when each of the open
/// blocks was entered.
pub struct WasmLive {
    /// Whether control can stand here.
    pub live: bool,
    /// For every open block, outermost first, whether control could stand
    /// where the block was entered.
    pub entries: Seq<bool>,
}

/// Where control can stand after `n` instructions of the scan. The code
/// behind `br`, `br_table`, `return` and `unreachable` is dead up to the next
/// `else` or `end` of the block around it; behind an `else` and behind an
/// `end`, control can stand where it could at the entry of the block; a block
/// is entered alive where its opening instruction is alive.
pub open spec fn live_at(code: Seq<u8>, m: WasmModuleView, n: nat) -> WasmLive
    decreases n,
{
    if n == 0 {
        WasmLive { live: true, entries: Seq::empty() }
    } else {
        let before = live_at(code, m, (n - 1) as nat);
        match scan_point(code, m, (n - 1) as nat) {
            None => before,
            Some((p, s)) => {
                let op = code_opcode(code, p);
                if op == Some(WasmOpcode::Block) || op == Some(WasmOpcode::Loop) || op == Some(
                    WasmOpcode::If,
                ) {
                    WasmLive { live: before.live, entries: before.entries.push(before.live) }
                } else if op == Some(WasmOpcode::Else) {
                    WasmLive {
                        live: before.entries.len() > 0 && before.entries.last(),
                        entries: before.entries,
                    }
                } else if op == Some(WasmOpcode::End) {
                    if before.entries.len() > 0 {
                        WasmLive { live: before.entries.last(), entries: before.entries.drop_last() }
                    } else {
                        before
                    }
                } else if op == Some(WasmOpcode::Br) || op == Some(WasmOpcode::BrTable) || op
                    == Some(WasmOpcode::Return) || op == Some(WasmOpcode::Unreachable) {
                    WasmLive { live: false, entries: before.entries }
                } else {
                    before
                }
            },
        }
    }
}

/// Whether the greatest depth that a scan state records covers its depth
/// and the entry depths of its open blocks.
pub open spec fn covers(s: WasmScan) -> bool {
    &&& s.depth <= s.max_stack
    &&& forall|i: int| 0 <= i < s.open.len() ==> (#[trigger] s.open[i]).ctx.stack_level <= s.max_stack
}

/// One instruction keeps the record of the greatest depth sound and never
/// lowers it.
pub proof fn lemma_instr_covers(code: Seq<u8>, pos: int, s: WasmScan, m: WasmModuleView)
    requires
        covers(s),
        scan_instr(code, pos, s, m) is Ok,
    ensures
        covers(scan_instr(code, pos, s, m)->Ok_0.0),
        scan_instr(code, pos, s, m)->Ok_0.0.max_stack >= s.max_stack,
{
    reveal(scan_instr);
    let s2 = scan_instr(code, pos, s, m)->Ok_0.0;
    assert forall|i: int| 0 <= i < s2.open.len() implies (#[trigger] s2.open[i]).ctx.stack_level
        <= s2.max_stack by {
        if i < s.open.len() {
            assert(s.open[i].ctx.stack_level <= s.max_stack);
        }
    }
}

/// One instruction never lowers the record of the greatest depth.
pub proof fn lemma_instr_raises(code: Seq<u8>, pos: int, s: WasmScan, m: WasmModuleView)
    requires
        scan_instr(code, pos, s, m) is Ok,
    ensures
        scan_instr(code, pos, s, m)->Ok_0.0.max_stack >= s.max_stack,
{
    reveal(scan_instr);
}

/// The finished table records a depth no smaller than the state it was
/// finished from.
pub proof fn lemma_scan_raises(code: Seq<u8>, pos: int, s: WasmScan, m: WasmModuleView)
    requires
        scan_from(code, pos, s, m) is Ok,
    ensures
        scan_from(code, pos, s, m)->Ok_0.max_stack >= s.max_stack,
    decreases code.len() - pos,
{
    reveal(scan_instr);
    lemma_instr_raises(code, pos, s, m);
    let (s2, next, finished) = scan_instr(code, pos, s, m)->Ok_0;
    if !finished {
        lemma_scan_raises(code, next, s2, m);
    }
}

/// The scan that goes on from a point of the scan ends as the whole scan
/// does, and its record of the greatest depth is sound at every point.
pub proof fn lemma_scan_point(code: Seq<u8>, m: WasmModuleView, n: nat)
    requires
        scan_point(code, m, n) is Some,
    ensures
        scan_from(code, scan_point(code, m, n)->Some_0.0, scan_point(code, m, n)->Some_0.1, m)
            == spec_analyze(code, 0, m),
        covers(scan_point(code, m, n)->Some_0.1),
        0 <= scan_point(code, m, n)->Some_0.0 <= code.len(),
    decreases n,
{
    reveal(scan_instr);
    if n != 0 {
        lemma_scan_point(code, m, (n - 1) as nat);
        let (p, s) = scan_point(code, m, (n - 1) as nat)->Some_0;
        lemma_instr_covers(code, p, s, m);
    }
}

/// Every depth that the scan passes through is at most the greatest depth
/// that the finished table records.
pub proof fn lemma_depth_is_recorded(code: Seq<u8>, m: WasmModuleView, n: nat, info: WasmBlockInfoView)
    requires
        spec_analyze(code, 0, m) == Ok::<WasmBlockInfoView, WasmDecodeError>(info),
        scan_point(code, m, n) is Some,
    ensures
        scan_point(code, m, n)->Some_0.1.depth <= info.max_stack,
{
    lemma_scan_point(code, m, n);
    let (p, s) = scan_point(code, m, n)->Some_0;
    lemma_scan_raises(code, p, s, m);
}

/// Whether two modules have the same functions and types.
pub open spec fn same_tables(m: WasmModuleView, m0: WasmModuleView) -> bool {
    m.functions == m0.functions && m.types == m0.types
}

/// Whether the activation state `f` stands where the scan stood after `n`
/// instructions, at a point where control can stand, with the depth and the
/// open blocks that the scan had there.
pub open spec fn follows(code: Seq<u8>, m0: WasmModuleView, f: WasmFrame, n: nat) -> bool {
    tracks(code, m0, f, n) && live_at(code, m0, n).live
}

/// Whether the activation state `f` stands where the scan stood after `n`
/// instructions, with the depth and the open blocks that the scan had there.
pub open spec fn tracks(code: Seq<u8>, m0: WasmModuleView, f: WasmFrame, n: nat) -> bool {
    scan_point(code, m0, n) matches Some((p, s)) && p == f.pc && s.depth == f.stack.len()
        && f.blocks == open_keys(s.open)
}

/// An instruction that neither opens nor closes a block nor leaves its
/// place for good keeps control where it can stand.
pub proof fn lemma_live_steady(code: Seq<u8>, m: WasmModuleView, n: nat)
    requires
        scan_point(code, m, n) is Some,
        ({
            let op = code_opcode(code, scan_point(code, m, n)->Some_0.0);
            op != Some(WasmOpcode::Else) && op != Some(WasmOpcode::End) && op != Some(
                WasmOpcode::Br,
            ) && op != Some(WasmOpcode::BrTable) && op != Some(WasmOpcode::Return) && op != Some(
                WasmOpcode::Unreachable,
            )
        }),
    ensures
        live_at(code, m, n + 1).live == live_at(code, m, n).live,
{
    reveal_with_fuel(live_at, 2);
}

/// Behind an `end` that closes a block, control can stand where it could
/// when the block was entered; an `end` takes the block from the open ones.
pub proof fn lemma_live_closes(code: Seq<u8>, m: WasmModuleView, n: nat)
    requires
        scan_point(code, m, n) is Some,
        code_opcode(code, scan_point(code, m, n)->Some_0.0) == Some(WasmOpcode::End),
        live_at(code, m, n).entries.len() > 0,
    ensures
        live_at(code, m, n + 1).live == live_at(code, m, n).entries.last(),
        live_at(code, m, n + 1).entries == live_at(code, m, n).entries.drop_last(),
{
    reveal_with_fuel(live_at, 2);
}

/// Where control can stand, it could when each of the open blocks was
/// entered; and where it could at the entry of a block, it could at the
/// entry of every block around it. There is one entry for every open block.
pub proof fn lemma_live_shape(code: Seq<u8>, m: WasmModuleView, n: nat)
    requires
        code.len() <= usize::MAX,
        scan_point(code, m, n) is Some,
    ensures
        live_at(code, m, n).entries.len() == scan_point(code, m, n)->Some_0.1.open.len(),
        live_at(code, m, n).live ==> forall|i: int|
            0 <= i < live_at(code, m, n).entries.len() ==> #[trigger] live_at(code, m, n).entries[i],
        forall|i: int, j: int|
            0 <= i <= j < live_at(code, m, n).entries.len() && #[trigger] live_at(
                code,
                m,
                n,
            ).entries[j] ==> #[trigger] live_at(code, m, n).entries[i],
    decreases n,
{
    if n != 0 {
        let before = (n - 1) as nat;
        lemma_live_shape(code, m, before);
        let (p, s) = scan_point(code, m, before)->Some_0;
        lemma_scan_shape(code, p, s, m);
        let old_live = live_at(code, m, before);
        let new_live = live_at(code, m, n);
        assert forall|i: int, j: int|
            0 <= i <= j < new_live.entries.len() && #[trigger] new_live.entries[j] implies #[trigger] new_live.entries[i] by {
            if j < old_live.entries.len() {
                assert(old_live.entries[j] ==> old_live.entries[i]);
            } else if i < old_live.entries.len() {
                assert(old_live.live ==> old_live.entries[i]);
            }
        }
        assert(new_live.live ==> forall|i: int|
            0 <= i < new_live.entries.len() ==> #[trigger] new_live.entries[i]) by {
            if new_live.live {
                assert forall|i: int| 0 <= i < new_live.entries.len() implies #[trigger] new_live.entries[i] by {
                    if i < old_live.entries.len() {
                        if old_live.entries.len() > 0 {
                            assert(old_live.entries[old_live.entries.len() - 1] ==> old_live.entries[i]);
                        }
                    }
                }
            }
        }
    }
}

/// Whether the scan passes the position `pos` with the depth `depth` and
/// with the blocks `keys` open, at a point where control can stand.
pub open spec fn at_point(code: Seq<u8>, m0: WasmModuleView, pos: int, depth: int, keys: Seq<usize>) -> bool {
    exists|n: nat| #[trigger] stands_at(code, m0, pos, depth, keys, n)
}

/// Whether the scan stands, after `n` instructions, at the position `pos`
/// with the depth `depth` and with the blocks `keys` open, and control can
/// stand there.
pub open spec fn stands_at(
    code: Seq<u8>,
    m0: WasmModuleView,
    pos: int,
    depth: int,
    keys: Seq<usize>,
    n: nat,
) -> bool {
    scan_point(code, m0, n) matches Some((p, s)) && p == pos && s.depth == depth && open_keys(
        s.open,
    ) == keys && live_at(code, m0, n).live
}

/// Whether the block table agrees with the scan about the `i`-th of the
/// open blocks `open`: the table holds the block with its signature and its
/// entry depth; the scan passes the place where a branch to the block
/// continues with the depth that the branch leaves and with the outer blocks
/// open; a loop has no result; the scan passes the `else` of an `if` with the
/// entry depth, and an `if` without `else` has no result.
pub open spec fn block_ok(
    code: Seq<u8>,
    m0: WasmModuleView,
    info: WasmBlockInfoView,
    open: Seq<WasmOpenBlock>,
    i: int,
) -> bool {
    let e = open[i];
    let ctx = info.blocks[e.key];
    &&& info.blocks.contains_key(e.key)
    &&& ctx.stack_level == e.ctx.stack_level
    &&& ctx.block_type == e.ctx.block_type
    &&& ctx.inst_type == e.ctx.inst_type
    &&& ctx.inst_type == BlockInstType::Loop ==> ctx.block_type == WasmBlockType::Empty
    &&& at_point(
        code,
        m0,
        ctx.spec_preferred_target() as int,
        ctx.stack_level + ctx.block_type.spec_arity(),
        open_keys(open.take(i)),
    )
    &&& ctx.inst_type == BlockInstType::If ==> if ctx.else_position != 0 {
        at_point(code, m0, ctx.else_position as int, ctx.stack_level as int, open_keys(open.take(i + 1)))
    } else {
        ctx.block_type == WasmBlockType::Empty
    }
}

/// Whether the code is well-stacked where the scan stands after `n`
/// instructions, if control can stand there: the depth leaves room for one
/// more cell; an `end` is
/// reached with the results of its block on top of the entry depth; the
/// block table agrees with the scan about every open block.
pub open spec fn point_ok(code: Seq<u8>, m0: WasmModuleView, info: WasmBlockInfoView, n: nat) -> bool {
    scan_point(code, m0, n) matches Some((p, s)) ==> (live_at(code, m0, n).live ==> {
        &&& s.depth < usize::MAX
        &&& code_opcode(code, p) == Some(WasmOpcode::End) && s.open.len() > 0 ==> s.depth
            == s.open.last().ctx.stack_level + s.open.last().ctx.block_type.spec_arity()
        &&& forall|i: int| 0 <= i < s.open.len() ==> #[trigger] block_ok(code, m0, info, s.open, i)
    })
}

/// Whether calls move the stack as the signatures say: the function table
/// is one that the machine can index, every function has at most one result, the body of a defined function has the parameters and
/// results of its signature, and the host answers an import with a value
/// where the import has a result and with none where it has none.
pub open spec fn calls_ok(m0: WasmModuleView, host: WasmHostModel) -> bool {
    &&& m0.functions.len() <= usize::MAX
    &&& forall|i: int|
        0 <= i < m0.functions.len() ==> {
            let func = #[trigger] m0.functions[i];
            &&& func.result_types.len() <= 1
            &&& func.import is None && func.body is Some ==> func.body.unwrap().param_types.len()
                == func.param_types.len() && func.body.unwrap().result_types.len()
                == func.result_types.len()
            &&& func.import is Some ==> forall|m: WasmModuleView, args: Seq<WasmValue>|
                (#[trigger] host(func.import.unwrap().handle, m, args)) matches Ok(v) ==> (v
                    == WasmValue::Empty) == (func.result_types.len() == 0)
        }
}

/// Whether `code` with the block table `info` is well-stacked in the module
/// `m0`: the table is that of the scan, and the code is well-stacked at
/// every point of the scan.
pub open spec fn well_stacked(code: Seq<u8>, m0: WasmModuleView, info: WasmBlockInfoView, host: WasmHostModel) -> bool {
    &&& spec_analyze(code, 0, m0) == Ok::<WasmBlockInfoView, WasmDecodeError>(info)
    &&& code.len() <= usize::MAX
    &&& forall|n: nat| #[trigger] point_ok(code, m0, info, n)
    &&& calls_ok(m0, host)
}

/// From a point of a scan that succeeds, the scan takes one more
/// instruction, and that instruction either finishes the scan or leads to
/// the next point.
pub proof fn lemma_next_point(code: Seq<u8>, m0: WasmModuleView, n: nat)
    requires
        spec_analyze(code, 0, m0) is Ok,
        scan_point(code, m0, n) is Some,
    ensures
        ({
            let (p, s) = scan_point(code, m0, n)->Some_0;
            &&& 0 <= p < code.len()
            &&& scan_instr(code, p, s, m0) is Ok
            &&& !scan_instr(code, p, s, m0)->Ok_0.2 ==> scan_point(code, m0, n + 1) == Some(
                (scan_instr(code, p, s, m0)->Ok_0.1, scan_instr(code, p, s, m0)->Ok_0.0),
            )
        }),
{
    reveal(scan_instr);
    lemma_scan_point(code, m0, n);
    let (p, s) = scan_point(code, m0, n)->Some_0;
    assert(scan_from(code, p, s, m0) is Ok);
    reveal_with_fuel(scan_point, 2);
}

/// The position after one unsigned LEB128 integer, as the scan and as the
/// machine read it.
pub proof fn lemma_uint_positions(code: Seq<u8>, pos: int)
    ensures
        scan_uints(code, pos, 1) is Ok <==> code_uint(code, pos) is Some,
        scan_uints(code, pos, 1) is Ok ==> scan_uints(code, pos, 1)->Ok_0 == code_uint(
            code,
            pos,
        )->Some_0.1,
        scan_uints(code, pos, 2) is Ok <==> code_memarg(code, pos) is Some,
        scan_uints(code, pos, 2) is Ok ==> scan_uints(code, pos, 2)->Ok_0 == code_memarg(
            code,
            pos,
        )->Some_0.1,
{
    reveal_with_fuel(scan_uints, 3);
}

/// An instruction on a local, a global, a constant, `drop` or `select` that
/// does not trap leaves the activation at the next point of the scan.
pub proof fn lemma_variable_follows(
    code: Seq<u8>,
    m0: WasmModuleView,
    info: WasmBlockInfoView,
    host: WasmHostModel,
    m: WasmModuleView,
    f: WasmFrame,
    n: nat,
)
    requires
        well_stacked(code, m0, info, host),
        same_tables(m, m0),
        follows(code, m0, f, n),
        code_opcode(code, f.pc) is Some,
        opcode_group(code_opcode(code, f.pc)->Some_0) == WasmOpcodeGroup::Variable,
    ensures
        step(code, info.blocks, m, f) matches WasmStep::Next(g, m2) ==> same_tables(m2, m0)
            && tracks(code, m0, g, n + 1),
        !(step(code, info.blocks, m, f) is Done),
        !(step(code, info.blocks, m, f) is Invoke),
{
    reveal(scan_instr);
    lemma_next_point(code, m0, n);
    lemma_uint_positions(code, f.pc + 1);
    assert(point_ok(code, m0, info, n));
}

/// A memory instruction that does not trap leaves the activation at the
/// next point of the scan.
pub proof fn lemma_memory_follows(
    code: Seq<u8>,
    m0: WasmModuleView,
    info: WasmBlockInfoView,
    host: WasmHostModel,
    m: WasmModuleView,
    f: WasmFrame,
    n: nat,
)
    requires
        well_stacked(code, m0, info, host),
        same_tables(m, m0),
        follows(code, m0, f, n),
        code_opcode(code, f.pc) is Some,
        opcode_group(code_opcode(code, f.pc)->Some_0) == WasmOpcodeGroup::Memory,
    ensures
        step(code, info.blocks, m, f) matches WasmStep::Next(g, m2) ==> same_tables(m2, m0)
            && tracks(code, m0, g, n + 1),
        !(step(code, info.blocks, m, f) is Done),
        !(step(code, info.blocks, m, f) is Invoke),
{
    reveal(scan_instr);
    lemma_next_point(code, m0, n);
    lemma_uint_positions(code, f.pc + 1);
    assert(point_ok(code, m0, info, n));
}

/// An integer operator that does not trap leaves the activation at the next
/// point of the scan.
pub proof fn lemma_numeric_follows(
    code: Seq<u8>,
    m0: WasmModuleView,
    info: WasmBlockInfoView,
    host: WasmHostModel,
    m: WasmModuleView,
    f: WasmFrame,
    n: nat,
)
    requires
        well_stacked(code, m0, info, host),
        same_tables(m, m0),
        follows(code, m0, f, n),
        code_opcode(code, f.pc) is Some,
        opcode_group(code_opcode(code, f.pc)->Some_0) == WasmOpcodeGroup::Numeric,
    ensures
        step(code, info.blocks, m, f) matches WasmStep::Next(g, m2) ==> same_tables(m2, m0)
            && tracks(code, m0, g, n + 1),
        !(step(code, info.blocks, m, f) is Done),
        !(step(code, info.blocks, m, f) is Invoke),
{
    reveal(scan_instr);
    lemma_next_point(code, m0, n);
    assert(point_ok(code, m0, info, n));
}

/// A branch that does not trap leaves the activation at a point of the
/// scan: where the target block continues, with the depth that the table
/// records for it and with the outer blocks open.
pub proof fn lemma_branch_follows(
    code: Seq<u8>,
    m0: WasmModuleView,
    info: WasmBlockInfoView,
    f: WasmFrame,
    open: Seq<WasmOpenBlock>,
    depth: usize,
)
    requires
        f.blocks == open_keys(open),
        forall|i: int| 0 <= i < open.len() ==> #[trigger] block_ok(code, m0, info, open, i),
    ensures
        branch(info.blocks, f, depth) matches Ok(g) ==> exists|n2: nat| follows(code, m0, g, n2),
{
    if let Ok(g) = branch(info.blocks, f, depth) {
        let keep = f.blocks.len() - depth - 1;
        assert(block_ok(code, m0, info, open, keep));
        let ctx = info.blocks[open[keep].key];
        assert(f.blocks[keep] == open[keep].key);
        assert(f.blocks.take(keep) =~= open_keys(open.take(keep)));
        let n2 = choose|n2: nat| #[trigger]
            stands_at(
                code,
                m0,
                ctx.spec_preferred_target() as int,
                ctx.stack_level + ctx.block_type.spec_arity(),
                open_keys(open.take(keep)),
                n2,
            );
        assert(follows(code, m0, g, n2));
    }
}

/// A structured control instruction that does not trap and does not end the
/// activation leaves it at a point of the scan.
pub proof fn lemma_control_follows(
    code: Seq<u8>,
    m0: WasmModuleView,
    info: WasmBlockInfoView,
    host: WasmHostModel,
    m: WasmModuleView,
    f: WasmFrame,
    n: nat,
)
    requires
        well_stacked(code, m0, info, host),
        same_tables(m, m0),
        follows(code, m0, f, n),
        code_opcode(code, f.pc) is Some,
        opcode_group(code_opcode(code, f.pc)->Some_0) == WasmOpcodeGroup::Control,
    ensures
        step(code, info.blocks, m, f) matches WasmStep::Next(g, m2) ==> same_tables(m2, m0)
            && exists|n2: nat| follows(code, m0, g, n2),
        !(step(code, info.blocks, m, f) is Invoke),
{
    reveal(scan_instr);
    lemma_next_point(code, m0, n);
    assert(point_ok(code, m0, info, n));
    let op = code_opcode(code, f.pc)->Some_0;
    let (p, s) = scan_point(code, m0, n)->Some_0;
    let after = WasmFrame { pc: f.pc + 1, ..f };
    if let WasmStep::Next(g, m2) = step(code, info.blocks, m, f) {
        match op {
            WasmOpcode::Nop => {
                lemma_live_steady(code, m0, n);
                assert(follows(code, m0, g, n + 1));
            },
            WasmOpcode::Block | WasmOpcode::Loop => {
                let s2 = scan_instr(code, p, s, m0)->Ok_0.0;
                assert(open_keys(s2.open) =~= open_keys(s.open).push(s2.open.last().key));
                lemma_live_steady(code, m0, n);
                assert(follows(code, m0, g, n + 1));
            },
            WasmOpcode::If => {
                let s2 = scan_instr(code, p, s, m0)->Ok_0.0;
                let q = scan_instr(code, p, s, m0)->Ok_0.1;
                assert(open_keys(s2.open) =~= open_keys(s.open).push(s2.open.last().key));
                lemma_live_steady(code, m0, n);
                if f.stack.last().spec_get_bool() {
                    assert(follows(code, m0, g, n + 1));
                } else {
                    assert(point_ok(code, m0, info, n + 1));
                    let i = s2.open.len() - 1;
                    assert(block_ok(code, m0, info, s2.open, i));
                    let ctx = info.blocks[s2.open[i].key];
                    assert(s2.open.take(i + 1) =~= s2.open);
                    assert(s2.open.take(i) =~= s.open);
                    if ctx.else_position != 0 {
                        let n2 = choose|n2: nat| #[trigger]
                            stands_at(
                                code,
                                m0,
                                ctx.else_position as int,
                                ctx.stack_level as int,
                                open_keys(s2.open.take(i + 1)),
                                n2,
                            );
                        assert(follows(code, m0, g, n2));
                    } else {
                        let n2 = choose|n2: nat| #[trigger]
                            stands_at(
                                code,
                                m0,
                                ctx.spec_preferred_target() as int,
                                ctx.stack_level + ctx.block_type.spec_arity(),
                                open_keys(s2.open.take(i)),
                                n2,
                            );
                        assert(follows(code, m0, g, n2));
                    }
                }
            },
            WasmOpcode::Else => {
                lemma_branch_follows(code, m0, info, after, s.open, 0);
            },
            WasmOpcode::End => {
                let s2 = scan_instr(code, p, s, m0)->Ok_0.0;
                assert(open_keys(s2.open) =~= open_keys(s.open).drop_last());
                lemma_live_shape(code, m0, n);
                lemma_live_closes(code, m0, n);
                assert(live_at(code, m0, n).entries[live_at(code, m0, n).entries.len() - 1]);
                assert(follows(code, m0, g, n + 1));
            },
            WasmOpcode::Br => {
                let (depth, q) = code_uint(code, after.pc)->Some_0;
                lemma_branch_follows(code, m0, info, WasmFrame { pc: q, ..after }, s.open, depth as usize);
            },
            WasmOpcode::BrIf => {
                let (depth, q) = code_uint(code, after.pc)->Some_0;
                lemma_uint_positions(code, after.pc);
                if f.stack.last().spec_get_bool() {
                    lemma_branch_follows(
                        code,
                        m0,
                        info,
                        WasmFrame { pc: q, stack: f.stack.drop_last(), ..after },
                        s.open,
                        depth as usize,
                    );
                } else {
                    lemma_live_steady(code, m0, n);
                    assert(follows(code, m0, g, n + 1));
                }
            },
            WasmOpcode::BrTable => {
                let (count, q) = code_uint(code, after.pc)->Some_0;
                let index = f.stack.last().spec_get_u32();
                let skipped = if (index as u64) < count {
                    index as nat
                } else {
                    count as nat
                };
                let r = code_skip(code, q, skipped)->Some_0;
                let (depth, t) = code_uint(code, r)->Some_0;
                lemma_branch_follows(
                    code,
                    m0,
                    info,
                    WasmFrame { pc: t, stack: f.stack.drop_last(), ..after },
                    s.open,
                    depth as usize,
                );
            },
            _ => {},
        }
    }
}

/// A call reads its function index; when the callee has returned, the
/// caller stands at the next point of the scan, if the callee has taken its
/// arguments and has left a value exactly where its signature has a result.
pub proof fn lemma_call_follows(
    code: Seq<u8>,
    m0: WasmModuleView,
    info: WasmBlockInfoView,
    host: WasmHostModel,
    m: WasmModuleView,
    f: WasmFrame,
    n: nat,
)
    requires
        well_stacked(code, m0, info, host),
        same_tables(m, m0),
        follows(code, m0, f, n),
        code_opcode(code, f.pc) is Some,
        opcode_group(code_opcode(code, f.pc)->Some_0) == WasmOpcodeGroup::Call,
    ensures
        !(step(code, info.blocks, m, f) is Next),
        !(step(code, info.blocks, m, f) is Done),
        step(code, info.blocks, m, f) matches WasmStep::Invoke(index, g) ==> g.stack == f.stack
            && index < m0.functions.len() && forall|v: WasmValue|
            g.stack.len() >= callee_params(m, index).len() && (v == WasmValue::Empty) == (
            m0.functions[index as int].result_types.len() == 0) ==> #[trigger] tracks(
                code,
                m0,
                push_result(
                    WasmFrame {
                        stack: g.stack.take(g.stack.len() - callee_params(m, index).len()),
                        ..g
                    },
                    v,
                ),
                n + 1,
            ),
{
    reveal(scan_instr);
    lemma_next_point(code, m0, n);
    assert(point_ok(code, m0, info, n));
    let op = code_opcode(code, f.pc)->Some_0;
    assert(op == WasmOpcode::Call);
    if let WasmStep::Invoke(index, g) = step(code, info.blocks, m, f) {
        let (p, s) = scan_point(code, m0, n)->Some_0;
        let (raw, q) = code_uint(code, f.pc + 1)->Some_0;
        assert(raw < m0.functions.len());
        assert(index == raw);
        let func = m0.functions[index as int];
        assert(func.result_types.len() <= 1);
        assert(callee_params(m, index).len() == func.param_types.len());
        let s2 = scan_instr(code, p, s, m0)->Ok_0.0;
        assert(s2 == s.effect(func.param_types.len(), func.result_types.len()));
        assert forall|v: WasmValue|
            g.stack.len() >= callee_params(m, index).len() && (v == WasmValue::Empty) == (
            m0.functions[index as int].result_types.len() == 0) implies #[trigger] tracks(
            code,
            m0,
            push_result(
                WasmFrame {
                    stack: g.stack.take(g.stack.len() - callee_params(m, index).len()),
                    ..g
                },
                v,
            ),
            n + 1,
        ) by {
            let kept = g.stack.take(g.stack.len() - callee_params(m, index).len());
            assert(kept.len() == g.stack.len() - func.param_types.len());
        }
    }
}

/// Whether the operand stack holds at most `bound` cells in every state
/// that the activation passes through when it runs from the state `f` with
/// the budget `budget`.
pub open spec fn stays_within(
    host: WasmHostModel,
    code: Seq<u8>,
    blocks: Map<usize, WasmBlockContext>,
    m: WasmModuleView,
    f: WasmFrame,
    budget: nat,
    bound: nat,
) -> bool
    decreases budget,
{
    &&& f.stack.len() <= bound
    &&& budget != 0 ==> {
        let left = (budget - 1) as nat;
        match step(code, blocks, m, f) {
            WasmStep::Next(g, n) => stays_within(host, code, blocks, n, g, left, bound),
            WasmStep::Done(g) => true,
            WasmStep::Trap(e) => true,
            WasmStep::Invoke(index, g) => {
                let sub = spec_call(host, m, index, g.stack, left);
                match sub.result {
                    Err(e) => true,
                    Ok(v) => if sub.budget <= left {
                        stays_within(
                            host,
                            code,
                            blocks,
                            sub.module,
                            push_result(
                                WasmFrame {
                                    stack: g.stack.take(
                                        g.stack.len() - callee_params(m, index).len(),
                                    ),
                                    ..g
                                },
                                v,
                            ),
                            sub.budget,
                            bound,
                        )
                    } else {
                        true
                    },
                }
            },
        }
    }
}

/// Running an activation changes neither the functions nor the types of
/// the module.
pub proof fn lemma_exec_keeps_tables(
    host: WasmHostModel,
    code: Seq<u8>,
    blocks: Map<usize, WasmBlockContext>,
    m: WasmModuleView,
    f: WasmFrame,
    budget: nat,
)
    ensures
        same_tables(spec_exec(host, code, blocks, m, f, budget).module, m),
    decreases budget, 0nat,
{
    if budget != 0 {
        let left = (budget - 1) as nat;
        match step(code, blocks, m, f) {
            WasmStep::Next(g, n) => {
                assert(same_tables(n, m));
                lemma_exec_keeps_tables(host, code, blocks, n, g, left);
            },
            WasmStep::Done(g) => {},
            WasmStep::Trap(e) => {},
            WasmStep::Invoke(index, g) => {
                lemma_call_keeps_tables(host, m, index, g.stack, left);
                let sub = spec_call(host, m, index, g.stack, left);
                match sub.result {
                    Err(e) => {},
                    Ok(v) => {
                        if sub.budget <= left {
                            lemma_exec_keeps_tables(
                                host,
                                code,
                                blocks,
                                sub.module,
                                push_result(
                                    WasmFrame {
                                        stack: g.stack.take(
                                            g.stack.len() - callee_params(m, index).len(),
                                        ),
                                        ..g
                                    },
                                    v,
                                ),
                                sub.budget,
                            );
                        }
                    },
                }
            },
        }
    }
}

/// A call changes neither the functions nor the types of the module.
pub proof fn lemma_call_keeps_tables(
    host: WasmHostModel,
    m: WasmModuleView,
    index: usize,
    stack: Seq<WasmStackValue>,
    budget: nat,
)
    ensures
        same_tables(spec_call(host, m, index, stack, budget).module, m),
    decreases budget, 2nat,
{
    if index < m.functions.len() {
        let func = m.functions[index as int];
        let params = callee_params(m, index);
        if !(func.import is None && func.body is None) && stack.len() >= params.len()
            && func.import is None {
            let body = func.body.unwrap();
            let args = call_args(stack, params);
            lemma_exec_keeps_tables(
                host,
                body.code,
                body.block_info.blocks,
                m,
                initial_frame(initial_locals(args, body.local_types)),
                budget,
            );
        }
    }
}

/// The stack bound. An activation of well-stacked code that stands at a
/// point of the scan, with the depth and the open blocks that the scan had
/// there, never holds more cells on its operand stack than the greatest
/// depth that the block table records.
pub proof fn lemma_stack_bound(
    host: WasmHostModel,
    code: Seq<u8>,
    info: WasmBlockInfoView,
    m0: WasmModuleView,
    m: WasmModuleView,
    f: WasmFrame,
    n: nat,
    budget: nat,
)
    requires
        well_stacked(code, m0, info, host),
        same_tables(m, m0),
        follows(code, m0, f, n),
    ensures
        stays_within(host, code, info.blocks, m, f, budget, info.max_stack as nat),
    decreases budget,
{
    lemma_depth_is_recorded(code, m0, n, info);
    if budget != 0 {
        let left = (budget - 1) as nat;
        match code_opcode(code, f.pc) {
            None => {},
            Some(op) => {
                match opcode_group(op) {
                    WasmOpcodeGroup::Control => {
                        lemma_control_follows(code, m0, info, host, m, f, n);
                    },
                    WasmOpcodeGroup::Call => {
                        lemma_call_follows(code, m0, info, host, m, f, n);
                        lemma_live_steady(code, m0, n);
                    },
                    WasmOpcodeGroup::Variable => {
                        lemma_variable_follows(code, m0, info, host, m, f, n);
                        lemma_live_steady(code, m0, n);
                    },
                    WasmOpcodeGroup::Memory => {
                        lemma_memory_follows(code, m0, info, host, m, f, n);
                        lemma_live_steady(code, m0, n);
                    },
                    WasmOpcodeGroup::Numeric => {
                        lemma_numeric_follows(code, m0, info, host, m, f, n);
                        lemma_live_steady(code, m0, n);
                    },
                }
                match step(code, info.blocks, m, f) {
                    WasmStep::Next(g, m2) => {
                        if opcode_group(op) != WasmOpcodeGroup::Control {
                            assert(tracks(code, m0, g, n + 1));
                            assert(follows(code, m0, g, n + 1));
                        }
                        let n2 = choose|n2: nat| follows(code, m0, g, n2);
                        lemma_stack_bound(host, code, info, m0, m2, g, n2, left);
                    },
                    WasmStep::Done(g) => {},
                    WasmStep::Trap(e) => {},
                    WasmStep::Invoke(index, g) => {
                        let sub = spec_call(host, m, index, g.stack, left);
                        lemma_call_keeps_tables(host, m, index, g.stack, left);
                        match sub.result {
                            Err(e) => {},
                            Ok(v) => {
                                if sub.budget <= left {
                                    let func = m0.functions[index as int];
                                    assert(m.functions[index as int] == func);
                                    assert(g.stack.len() >= callee_params(m, index).len());
                                    assert((v == WasmValue::Empty) == (func.result_types.len()
                                        == 0));
                                    let back = push_result(
                                        WasmFrame {
                                            stack: g.stack.take(
                                                g.stack.len() - callee_params(m, index).len(),
                                            ),
                                            ..g
                                        },
                                        v,
                                    );
                                    assert(tracks(code, m0, back, n + 1));
                                    assert(follows(code, m0, back, n + 1));
                                    lemma_stack_bound(
                                        host,
                                        code,
                                        info,
                                        m0,
                                        sub.module,
                                        back,
                                        n + 1,
                                        sub.budget,
                                    );
                                }
                            },
                        }
                    },
                }
            },
        }
    }
}

/// Whether the keys of a scan state are in order at the position `p`: the
/// open blocks have rising keys, none beyond `p`; the closed blocks have
/// keys that are not beyond `p` and that no open block has; the entry depths
/// of the open blocks leave room for one more cell.
pub open spec fn keys_ok(s: WasmScan, p: int) -> bool {
    &&& forall|i: int| 0 <= i < s.open.len() ==> (#[trigger] s.open[i]).key <= p
    &&& forall|i: int| 0 <= i < s.open.len() ==> (#[trigger] s.open[i]).ctx.stack_level < usize::MAX
    &&& forall|i: int, j: int|
        0 <= i < j < s.open.len() ==> (#[trigger] s.open[i]).key < (#[trigger] s.open[j]).key
    &&& forall|k: usize| #[trigger] s.blocks.contains_key(k) ==> k <= p
    &&& forall|k: usize, i: int|
        #[trigger] s.blocks.contains_key(k) && 0 <= i < s.open.len() ==> (#[trigger] s.open[i]).key
            != k
}

/// Whether the code is plainly well-stacked where the scan stands after `n`
/// instructions: the depth leaves room for one more cell; a loop has no
/// result; an `end` at which control can stand is reached with the results
/// of its block on top of the entry depth; an `if` that control can enter
/// and that is closed without `else` has no result.
pub open spec fn plain_ok(code: Seq<u8>, m: WasmModuleView, n: nat) -> bool {
    scan_point(code, m, n) matches Some((p, s)) ==> {
        &&& s.depth < usize::MAX
        &&& code_opcode(code, p) == Some(WasmOpcode::Loop) && p + 1 < code.len() ==> code[p + 1]
            == 0x40
        &&& code_opcode(code, p) == Some(WasmOpcode::End) && s.open.len() > 0 ==> {
            let top = s.open.last().ctx;
            &&& live_at(code, m, n).live ==> s.depth == top.stack_level
                + top.block_type.spec_arity()
            &&& top.inst_type == BlockInstType::If && top.else_position == 0 && live_at(
                code,
                m,
                n,
            ).entries.last() ==> top.block_type == WasmBlockType::Empty
        }
    }
}

/// One instruction keeps the keys in order.
pub proof fn lemma_keys_step(code: Seq<u8>, pos: int, s: WasmScan, m: WasmModuleView)
    requires
        code.len() <= usize::MAX,
        keys_ok(s, pos),
        scan_instr(code, pos, s, m) is Ok,
        pos < scan_instr(code, pos, s, m)->Ok_0.1 <= code.len(),
        scan_instr(code, pos, s, m)->Ok_0.0.depth < usize::MAX,
    ensures
        keys_ok(scan_instr(code, pos, s, m)->Ok_0.0, scan_instr(code, pos, s, m)->Ok_0.1),
{
    reveal(scan_instr);
    let (s2, q, finished) = scan_instr(code, pos, s, m)->Ok_0;
    let op = WasmOpcode::spec_from_u8(code[pos])->Some_0;
    assert forall|i: int| 0 <= i < s2.open.len() implies (#[trigger] s2.open[i]).key <= q by {
        if i < s.open.len() {
            assert(s.open[i].key <= pos);
        }
    }
    assert forall|i: int| 0 <= i < s2.open.len() implies (#[trigger] s2.open[i]).ctx.stack_level
        < usize::MAX by {
        if i < s.open.len() {
            assert(s.open[i].ctx.stack_level < usize::MAX);
        }
    }
    assert forall|i: int, j: int| 0 <= i < j < s2.open.len() implies (#[trigger] s2.open[i]).key < (
    #[trigger] s2.open[j]).key by {
        if j < s.open.len() {
            assert(s.open[i].key < s.open[j].key);
        } else {
            assert(s.open[i].key <= pos);
        }
    }
    assert forall|k: usize| #[trigger] s2.blocks.contains_key(k) implies k <= q by {
        if s.blocks.contains_key(k) {
        } else {
            assert(s.open.last().key <= pos);
        }
    }
    assert forall|k: usize, i: int| #[trigger]
        s2.blocks.contains_key(k) && 0 <= i < s2.open.len() implies (#[trigger] s2.open[i]).key
        != k by {
        if s.blocks.contains_key(k) {
            if i < s.open.len() {
                assert(s.open[i].key != k);
            } else {
                assert(k <= pos);
            }
        } else {
            assert(k == s.open.last().key);
            assert(s.open[i].key < s.open[s.open.len() - 1].key);
        }
    }
}

/// The keys are in order at every point of a scan of plainly well-stacked
/// code.
pub proof fn lemma_keys_ok(code: Seq<u8>, m: WasmModuleView, n: nat)
    requires
        code.len() <= usize::MAX,
        forall|k: nat| #[trigger] plain_ok(code, m, k),
        scan_point(code, m, n) is Some,
    ensures
        keys_ok(scan_point(code, m, n)->Some_0.1, scan_point(code, m, n)->Some_0.0),
    decreases n,
{
    if n != 0 {
        lemma_keys_ok(code, m, (n - 1) as nat);
        let (p, s) = scan_point(code, m, (n - 1) as nat)->Some_0;
        assert(plain_ok(code, m, n));
        lemma_keys_step(code, p, s, m);
    }
}

/// A block that the scan has closed stays in the table as it was closed.
pub proof fn lemma_closed_blocks_stay(
    code: Seq<u8>,
    m: WasmModuleView,
    n: nat,
    info: WasmBlockInfoView,
    k: usize,
)
    requires
        code.len() <= usize::MAX,
        forall|j: nat| #[trigger] plain_ok(code, m, j),
        spec_analyze(code, 0, m) == Ok::<WasmBlockInfoView, WasmDecodeError>(info),
        scan_point(code, m, n) is Some,
        scan_point(code, m, n)->Some_0.1.blocks.contains_key(k),
    ensures
        info.blocks.contains_key(k),
        info.blocks[k] == scan_point(code, m, n)->Some_0.1.blocks[k],
    decreases code.len() - scan_point(code, m, n)->Some_0.0,
{
    reveal(scan_instr);
    lemma_scan_point(code, m, n);
    lemma_next_point(code, m, n);
    lemma_keys_ok(code, m, n);
    let (p, s) = scan_point(code, m, n)->Some_0;
    let (s2, q, finished) = scan_instr(code, p, s, m)->Ok_0;
    if finished {
    } else {
        assert(scan_point(code, m, n + 1) == Some((q, s2)));
        assert(s2.blocks.contains_key(k) && s2.blocks[k] == s.blocks[k]) by {
            if s.open.len() > 0 {
                assert(s.open[s.open.len() - 1].key != k);
            }
        }
        reveal_with_fuel(scan_point, 2);
        lemma_closed_blocks_stay(code, m, n + 1, info, k);
    }
}

/// What one instruction of the scan does to the open blocks and to the
/// table. An opening instruction adds a block with the next position as its
/// key; an `else` sets the depth back and notes its position in the innermost
/// block; an `end` closes the innermost block and puts it into the table, or
/// finishes the scan; every other instruction leaves the blocks as they are.
pub proof fn lemma_scan_shape(code: Seq<u8>, pos: int, s: WasmScan, m: WasmModuleView)
    requires
        code.len() <= usize::MAX,
        scan_instr(code, pos, s, m) is Ok,
    ensures
        ({
            let (s2, q, finished) = scan_instr(code, pos, s, m)->Ok_0;
            let op = code_opcode(code, pos);
            &&& op is Some
            &&& 0 <= pos < code.len()
            &&& if op == Some(WasmOpcode::Block) || op == Some(WasmOpcode::Loop) || op == Some(
                WasmOpcode::If,
            ) {
                &&& !finished
                &&& s2.blocks == s.blocks
                &&& s2.open == s.open.push(s2.open.last())
                &&& s2.open.len() == s.open.len() + 1
                &&& s2.open.last().key == q
                &&& s2.open.last().ctx.start_position == pos
                &&& s2.open.last().ctx.stack_level == s2.depth
                &&& s2.open.last().ctx.else_position == 0
                &&& s2.open.last().ctx.inst_type == (if op == Some(WasmOpcode::Block) {
                    BlockInstType::Block
                } else if op == Some(WasmOpcode::Loop) {
                    BlockInstType::Loop
                } else {
                    BlockInstType::If
                })
                &&& pos + 1 < code.len()
                &&& WasmBlockType::spec_from_u8(code[pos + 1]) == Some(
                    s2.open.last().ctx.block_type,
                )
                &&& op != Some(WasmOpcode::If) ==> s2.depth == s.depth
            } else if op == Some(WasmOpcode::Else) {
                &&& !finished
                &&& s2.blocks == s.blocks
                &&& s.open.len() > 0
                &&& s2.open.len() == s.open.len()
                &&& s2.open == s.open.drop_last().push(s2.open.last())
                &&& s2.open.last().key == s.open.last().key
                &&& s2.open.last().ctx.inst_type == s.open.last().ctx.inst_type
                &&& s2.open.last().ctx.block_type == s.open.last().ctx.block_type
                &&& s2.open.last().ctx.stack_level == s.open.last().ctx.stack_level
                &&& s2.open.last().ctx.start_position == s.open.last().ctx.start_position
                &&& s2.open.last().ctx.else_position == q
                &&& s2.depth == s.open.last().ctx.stack_level
            } else if op == Some(WasmOpcode::End) {
                if s.open.len() == 0 {
                    finished && s2 == s
                } else {
                    let top = s.open.last();
                    &&& !finished
                    &&& s2.open == s.open.drop_last()
                    &&& s2.blocks == s.blocks.insert(
                        top.key,
                        WasmBlockContext { end_position: q as usize, ..top.ctx },
                    )
                    &&& top.ctx.stack_level < usize::MAX ==> s2.depth == top.ctx.stack_level
                        + top.ctx.block_type.spec_arity()
                }
            } else {
                &&& !finished
                &&& s2.blocks == s.blocks
                &&& s2.open == s.open
            }
        }),
{
    reveal(scan_instr);
    let (s2, q, finished) = scan_instr(code, pos, s, m)->Ok_0;
    let op = code_opcode(code, pos);
    if op == Some(WasmOpcode::Else) {
        assert(s2.open =~= s.open.drop_last().push(s2.open.last()));
    }
    if op == Some(WasmOpcode::Block) || op == Some(WasmOpcode::Loop) || op == Some(WasmOpcode::If) {
        assert(s2.open =~= s.open.push(s2.open.last()));
    }
}

/// What the scan knows, after `n` instructions, of the `i`-th open block
/// from the instructions that it has passed: a loop has no result; a loop
/// that control can enter was opened at a point of the scan with the entry
/// depth and the outer blocks; an `else` that has been passed in a block
/// that control can enter is a point of the scan with the entry depth and
/// the blocks up to this one.
pub open spec fn open_ok(code: Seq<u8>, m: WasmModuleView, n: nat, i: int) -> bool {
    let s = scan_point(code, m, n)->Some_0.1;
    let e = s.open[i];
    let alive = live_at(code, m, n).entries[i];
    &&& e.ctx.inst_type == BlockInstType::Loop ==> e.ctx.block_type == WasmBlockType::Empty
    &&& e.ctx.inst_type == BlockInstType::Loop && alive ==> at_point(
        code,
        m,
        e.ctx.start_position as int,
        e.ctx.stack_level as int,
        open_keys(s.open.take(i)),
    )
    &&& e.ctx.else_position != 0 && alive ==> at_point(
        code,
        m,
        e.ctx.else_position as int,
        e.ctx.stack_level as int,
        open_keys(s.open.take(i + 1)),
    )
}

/// At every point of a scan of plainly well-stacked code, the scan knows of
/// every open block what `open_ok` says.
pub proof fn lemma_open_ok(code: Seq<u8>, m: WasmModuleView, n: nat)
    requires
        code.len() <= usize::MAX,
        forall|k: nat| #[trigger] plain_ok(code, m, k),
        scan_point(code, m, n) is Some,
    ensures
        forall|i: int|
            0 <= i < scan_point(code, m, n)->Some_0.1.open.len() ==> #[trigger] open_ok(code, m, n, i),
    decreases n,
{
    if n != 0 {
        let before = (n - 1) as nat;
        lemma_open_ok(code, m, before);
        lemma_keys_ok(code, m, before);
        lemma_keys_ok(code, m, n);
        lemma_live_shape(code, m, before);
        lemma_live_shape(code, m, n);
        let (p, s) = scan_point(code, m, before)->Some_0;
        let (q, s2) = scan_point(code, m, n)->Some_0;
        let old_live = live_at(code, m, before);
        let new_live = live_at(code, m, n);
        assert(plain_ok(code, m, before));
        assert(plain_ok(code, m, n));
        lemma_scan_shape(code, p, s, m);
        assert forall|i: int| 0 <= i < s2.open.len() implies #[trigger] open_ok(code, m, n, i) by {
            let e = s2.open[i];
            if i < s.open.len() {
                assert(open_ok(code, m, before, i));
                assert(new_live.entries[i] == old_live.entries[i]);
                assert(s2.open.take(i) =~= s.open.take(i));
                assert(open_keys(s2.open.take(i + 1)) =~= open_keys(s.open.take(i + 1)));
                if e.ctx.else_position != 0 && e.ctx.else_position != s.open[i].ctx.else_position
                    && new_live.entries[i] {
                    assert(s2.open.take(i + 1) =~= s2.open);
                    assert(stands_at(
                        code,
                        m,
                        e.ctx.else_position as int,
                        e.ctx.stack_level as int,
                        open_keys(s2.open.take(i + 1)),
                        n,
                    ));
                }
            } else {
                assert(s2.open.take(i) =~= s.open);
                if e.ctx.inst_type == BlockInstType::Loop && new_live.entries[i] {
                    assert(stands_at(
                        code,
                        m,
                        e.ctx.start_position as int,
                        e.ctx.stack_level as int,
                        open_keys(s2.open.take(i)),
                        before,
                    ));
                }
            }
        }
    }
}

/// Whether the scan stands, after `n1` instructions, right behind the `end`
/// of the block that `e` records, with the blocks `outer` open: the depth is
/// the entry depth and the results of the block; the table holds the block,
/// with this position as its end. `alive` says whether control can enter
/// the block: if so, it can stand behind the `end`; the `else` of the block,
/// if it has one, is a point of the scan with the entry depth; and an `if`
/// without `else` has no result.
pub open spec fn closed_at(
    code: Seq<u8>,
    m: WasmModuleView,
    e: WasmOpenBlock,
    outer: Seq<usize>,
    alive: bool,
    n1: nat,
) -> bool {
    scan_point(code, m, n1) matches Some((p1, s1)) && {
        let c = s1.blocks[e.key];
        &&& open_keys(s1.open) == outer
        &&& s1.depth == e.ctx.stack_level + e.ctx.block_type.spec_arity()
        &&& alive ==> live_at(code, m, n1).live
        &&& s1.blocks.contains_key(e.key)
        &&& c.inst_type == e.ctx.inst_type
        &&& c.block_type == e.ctx.block_type
        &&& c.stack_level == e.ctx.stack_level
        &&& c.start_position == e.ctx.start_position
        &&& c.end_position == p1
        &&& c.else_position != 0 && alive ==> at_point(
            code,
            m,
            c.else_position as int,
            c.stack_level as int,
            outer.push(e.key),
        )
        &&& c.inst_type == BlockInstType::If && c.else_position == 0 && alive ==> c.block_type
            == WasmBlockType::Empty
    }
}

/// In a scan that succeeds, every open block is closed later.
pub proof fn lemma_closes(code: Seq<u8>, m: WasmModuleView, n: nat, i: int)
    requires
        code.len() <= usize::MAX,
        forall|k: nat| #[trigger] plain_ok(code, m, k),
        spec_analyze(code, 0, m) is Ok,
        scan_point(code, m, n) is Some,
        0 <= i < scan_point(code, m, n)->Some_0.1.open.len(),
    ensures
        exists|n1: nat| #[trigger]
            closed_at(
                code,
                m,
                scan_point(code, m, n)->Some_0.1.open[i],
                open_keys(scan_point(code, m, n)->Some_0.1.open.take(i)),
                live_at(code, m, n).entries[i],
                n1,
            ),
    decreases code.len() - scan_point(code, m, n)->Some_0.0,
{
    lemma_scan_point(code, m, n);
    lemma_next_point(code, m, n);
    lemma_keys_ok(code, m, n);
    lemma_open_ok(code, m, n);
    lemma_live_shape(code, m, n);
    let (p, s) = scan_point(code, m, n)->Some_0;
    let (s2, q, finished) = scan_instr(code, p, s, m)->Ok_0;
    let e = s.open[i];
    let outer = open_keys(s.open.take(i));
    let alive = live_at(code, m, n).entries[i];
    assert(plain_ok(code, m, n));
    lemma_scan_shape(code, p, s, m);
    assert(!finished);
    assert(scan_point(code, m, n + 1) == Some((q, s2)));
    reveal_with_fuel(scan_point, 2);
    assert(plain_ok(code, m, n + 1));
    assert(e.ctx.stack_level < usize::MAX);
    lemma_live_shape(code, m, n + 1);
    if s2.open.len() <= i {
        assert(open_ok(code, m, n, i));
        lemma_live_closes(code, m, n);
        assert(s.open.take(i + 1) =~= s.open);
        assert(s2.open =~= s.open.take(i));
        assert(open_keys(s.open) =~= outer.push(e.key));
        assert(closed_at(code, m, e, outer, alive, n + 1));
    } else {
        lemma_closes(code, m, n + 1, i);
        lemma_live_prefix(code, m, n, i);
        assert(s2.open.take(i) =~= s.open.take(i));
        let n1 = choose|n1: nat| #[trigger]
            closed_at(
                code,
                m,
                s2.open[i],
                open_keys(s2.open.take(i)),
                live_at(code, m, n + 1).entries[i],
                n1,
            );
        assert(closed_at(code, m, e, outer, alive, n1));
    }
}

/// What is recorded of the entry of a block does not change while the
/// block is open.
pub proof fn lemma_live_prefix(code: Seq<u8>, m: WasmModuleView, n: nat, i: int)
    requires
        code.len() <= usize::MAX,
        scan_point(code, m, n) is Some,
        scan_point(code, m, n + 1) is Some,
        0 <= i < scan_point(code, m, n)->Some_0.1.open.len(),
        i < scan_point(code, m, n + 1)->Some_0.1.open.len(),
    ensures
        live_at(code, m, n + 1).entries[i] == live_at(code, m, n).entries[i],
{
    lemma_live_shape(code, m, n);
    lemma_live_shape(code, m, n + 1);
    reveal_with_fuel(live_at, 2);
    reveal_with_fuel(scan_point, 2);
    let (p, s) = scan_point(code, m, n)->Some_0;
    lemma_scan_shape(code, p, s, m);
}

/// The block table of plainly well-stacked code agrees with the scan about
/// every block that is open at a point of the scan.
pub proof fn lemma_point_ok(code: Seq<u8>, m: WasmModuleView, info: WasmBlockInfoView, n: nat)
    requires
        code.len() <= usize::MAX,
        forall|k: nat| #[trigger] plain_ok(code, m, k),
        spec_analyze(code, 0, m) == Ok::<WasmBlockInfoView, WasmDecodeError>(info),
    ensures
        point_ok(code, m, info, n),
{
    if scan_point(code, m, n) is Some && live_at(code, m, n).live {
        let (p, s) = scan_point(code, m, n)->Some_0;
        assert(plain_ok(code, m, n));
        lemma_open_ok(code, m, n);
        lemma_live_shape(code, m, n);
        assert forall|i: int| 0 <= i < s.open.len() implies #[trigger] block_ok(
            code,
            m,
            info,
            s.open,
            i,
        ) by {
            let e = s.open[i];
            let outer = open_keys(s.open.take(i));
            assert(live_at(code, m, n).entries[i]);
            lemma_closes(code, m, n, i);
            let n1 = choose|n1: nat| #[trigger] closed_at(code, m, e, outer, true, n1);
            lemma_closed_blocks_stay(code, m, n1, info, e.key);
            let ctx = info.blocks[e.key];
            assert(open_ok(code, m, n, i));
            assert(open_keys(s.open.take(i + 1)) =~= outer.push(e.key));
            if ctx.inst_type == BlockInstType::Loop {
                assert(at_point(
                    code,
                    m,
                    ctx.spec_preferred_target() as int,
                    ctx.stack_level + ctx.block_type.spec_arity(),
                    outer,
                ));
            } else {
                assert(stands_at(
                    code,
                    m,
                    ctx.spec_preferred_target() as int,
                    ctx.stack_level + ctx.block_type.spec_arity(),
                    outer,
                    n1,
                ));
            }
        }
    }
}

/// Whether `code` with the block table `info` is plainly well-stacked in
/// the module `m`: the table is that of the scan, the code is not longer
/// than the machine can address, it is plainly well-stacked at every point
/// of the scan, and calls move the stack as the signatures say.
pub open spec fn well_formed(code: Seq<u8>, m: WasmModuleView, info: WasmBlockInfoView, host: WasmHostModel) -> bool {
    &&& spec_analyze(code, 0, m) == Ok::<WasmBlockInfoView, WasmDecodeError>(info)
    &&& code.len() <= usize::MAX
    &&& forall|n: nat| #[trigger] plain_ok(code, m, n)
    &&& calls_ok(m, host)
}

/// Plainly well-stacked code is well-stacked: its block table agrees with
/// the scan.
pub proof fn lemma_well_formed(code: Seq<u8>, m: WasmModuleView, info: WasmBlockInfoView, host: WasmHostModel)
    requires
        well_formed(code, m, info, host),
    ensures
        well_stacked(code, m, info, host),
{
    assert forall|n: nat| #[trigger] point_ok(code, m, info, n) by {
        lemma_point_ok(code, m, info, n);
    }
}

/// The stack bound for a whole activation: an activation of plainly
/// well-stacked code never holds more cells on its operand stack than the
/// greatest depth that the block table of the code records.
pub proof fn lemma_activation_stack_bound(
    host: WasmHostModel,
    code: Seq<u8>,
    info: WasmBlockInfoView,
    m: WasmModuleView,
    locals: Seq<WasmValue>,
    budget: nat,
)
    requires
        well_formed(code, m, info, host),
    ensures
        stays_within(
            host,
            code,
            info.blocks,
            m,
            initial_frame(locals),
            budget,
            info.max_stack as nat,
        ),
{
    lemma_well_formed(code, m, info, host);
    assert(open_keys(WasmScan::initial().open) =~= Seq::<usize>::empty());
    assert(follows(code, m, initial_frame(locals), 0));
    lemma_stack_bound(host, code, info, m, m, initial_frame(locals), 0, budget);
}

} // verus!
