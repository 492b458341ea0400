use wasm_o::wasm::{
    BlockInstType, Leb128Stream, WasmBlockContext, WasmBlockInfo, WasmBlockType, WasmDecodeError,
    WasmFunction, WasmModule, WasmOpcode, WasmOperand, WasmValType,
};

fn scan(code: &[u8]) -> Result<WasmBlockInfo, WasmDecodeError> {
    let module = WasmModule::new();
    let mut stream = Leb128Stream::from_slice(code);
    WasmBlockInfo::analyze(&mut stream, &[], &[], &module)
}

#[test]
fn straight_line_code_has_no_blocks() {
    let info = scan(&[0x20, 0, 0x20, 1, 0x6A, 0x0B]).unwrap();
    assert_eq!(info.max_stack(), 2);
    assert_eq!(info.max_block_level(), 0);
    assert!(info.blocks.is_empty());
    assert_eq!(info.block_info(0), None);
}

#[test]
fn loop_is_recorded_with_its_header_as_target() {
    let code = [
        0x41, 0x00, 0x21, 0x01, 0x03, 0x40, 0x20, 0x01, 0x41, 0x01, 0x6a, 0x21, 0x01, 0x20,
        0x00, 0x41, 0x01, 0x6b, 0x22, 0x00, 0x0d, 0x00, 0x0b, 0x20, 0x01, 0x0b,
    ];
    let module = WasmModule::new();
    let mut stream = Leb128Stream::from_slice(&code);
    let info = WasmBlockInfo::analyze(&mut stream, &[], &[], &module).unwrap();
    assert_eq!(stream.fetch_position(), code.len());
    assert_eq!(info.max_stack(), 2);
    assert_eq!(info.max_block_level(), 1);
    assert_eq!(info.blocks.len(), 1);
    let block = info.block_info(6).unwrap();
    assert_eq!(
        block,
        WasmBlockContext {
            inst_type: BlockInstType::Loop,
            block_type: WasmBlockType::Empty,
            stack_level: 0,
            start_position: 4,
            end_position: 23,
            else_position: 0,
        }
    );
    assert_eq!(block.preferred_target(), 4);
    assert_eq!(info.block_info(4), None);
}

#[test]
fn if_with_else_is_recorded() {
    let code = [0x20, 0x00, 0x04, 0x7F, 0x41, 0x01, 0x05, 0x41, 0x02, 0x0B, 0x0B];
    let info = scan(&code).unwrap();
    assert_eq!(info.max_stack(), 1);
    assert_eq!(info.max_block_level(), 1);
    let block = info.block_info(4).unwrap();
    assert_eq!(
        block,
        WasmBlockContext {
            inst_type: BlockInstType::If,
            block_type: WasmBlockType::I32,
            stack_level: 0,
            start_position: 2,
            end_position: 10,
            else_position: 7,
        }
    );
    assert_eq!(block.preferred_target(), 10);
}

#[test]
fn nested_blocks_are_recorded() {
    let code = [
        0x02, 0x40, 0x02, 0x7E, 0x42, 0x05, 0x0B, 0x1A, 0x0B, 0x0B,
    ];
    let info = scan(&code).unwrap();
    assert_eq!(info.max_block_level(), 2);
    assert_eq!(info.max_stack(), 1);
    let outer = info.block_info(2).unwrap();
    assert_eq!(outer.inst_type, BlockInstType::Block);
    assert_eq!(outer.stack_level, 0);
    assert_eq!(outer.end_position, 9);
    let inner = info.block_info(4).unwrap();
    assert_eq!(inner.block_type, WasmBlockType::I64);
    assert_eq!(inner.start_position, 2);
    assert_eq!(inner.end_position, 7);
    assert_eq!(inner.preferred_target(), 7);
}

#[test]
fn immediates_are_passed_over() {
    let code = [
        0x41, 0xFF, 0x00, 0x42, 0x80, 0x7F, 0x43, 1, 2, 3, 4, 0x44, 1, 2, 3, 4, 5, 6, 7, 8, 0x28,
        0x02, 0x80, 0x01, 0x02, 0x40, 0x0E, 0x02, 0x00, 0x00, 0x00, 0x0B, 0x3F, 0x00, 0x0B,
    ];
    let info = scan(&code).unwrap();
    assert_eq!(info.block_info(26).unwrap().end_position, 32);
    assert_eq!(info.max_stack(), 5);
}

#[test]
fn else_without_if() {
    assert_eq!(scan(&[0x05, 0x0B]).err(), Some(WasmDecodeError::InvalidBytecode));
    assert_eq!(scan(&[0x02, 0x40, 0x05, 0x0B, 0x0B]).err(), Some(WasmDecodeError::InvalidBytecode));
}

#[test]
fn end_before_the_last_byte() {
    assert_eq!(scan(&[0x0B, 0x0B]).err(), Some(WasmDecodeError::InvalidBytecode));
    assert_eq!(scan(&[0x01, 0x0B, 0x01]).err(), Some(WasmDecodeError::InvalidBytecode));
}

#[test]
fn body_without_its_end() {
    assert_eq!(scan(&[]).err(), Some(WasmDecodeError::UnexpectedEof));
    assert_eq!(scan(&[0x01]).err(), Some(WasmDecodeError::UnexpectedEof));
    assert_eq!(scan(&[0x02, 0x40, 0x0B]).err(), Some(WasmDecodeError::UnexpectedEof));
}

#[test]
fn instruction_cut_off() {
    assert_eq!(scan(&[0x41]).err(), Some(WasmDecodeError::UnexpectedEof));
    assert_eq!(scan(&[0x41, 0x80]).err(), Some(WasmDecodeError::UnexpectedEof));
    assert_eq!(scan(&[0x02]).err(), Some(WasmDecodeError::UnexpectedEof));
    assert_eq!(scan(&[0x28, 0x02]).err(), Some(WasmDecodeError::UnexpectedEof));
    assert_eq!(scan(&[0x43, 0, 0, 0]).err(), Some(WasmDecodeError::UnexpectedEof));
    assert_eq!(scan(&[0x0E, 0x02, 0x00]).err(), Some(WasmDecodeError::UnexpectedEof));
}

#[test]
fn unknown_opcode_and_unknown_signature() {
    assert_eq!(scan(&[0x06, 0x0B]).err(), Some(WasmDecodeError::InvalidBytecode));
    assert_eq!(scan(&[0xFF, 0x0B]).err(), Some(WasmDecodeError::InvalidBytecode));
    assert_eq!(scan(&[0x02, 0x41, 0x0B, 0x0B]).err(), Some(WasmDecodeError::InvalidBytecode));
}

#[test]
fn call_outside_the_function_table() {
    assert_eq!(scan(&[0x10, 0x00, 0x0B]).err(), Some(WasmDecodeError::InvalidParameter));
    assert_eq!(scan(&[0x11, 0x00, 0x00, 0x0B]).err(), Some(WasmDecodeError::InvalidParameter));
}

#[test]
fn call_moves_the_depth_by_the_signature() {
    let mut module = WasmModule::new();
    module.functions.push(WasmFunction {
        type_index: 0,
        param_types: vec![WasmValType::I32, WasmValType::I32],
        result_types: vec![WasmValType::I32],
        import: None,
        body: None,
    });
    let code = [0x41, 1, 0x41, 2, 0x41, 3, 0x10, 0x00, 0x1A, 0x1A, 0x0B];
    let mut stream = Leb128Stream::from_slice(&code);
    let info = WasmBlockInfo::analyze(&mut stream, &[], &[WasmValType::I32], &module).unwrap();
    assert_eq!(info.max_stack(), 3);
}

#[test]
fn opcode_table() {
    assert_eq!(WasmOpcode::from_u8(0x6A), Some(WasmOpcode::I32Add));
    assert_eq!(WasmOpcode::from_u8(0x00), Some(WasmOpcode::Unreachable));
    assert_eq!(WasmOpcode::from_u8(0xC4), Some(WasmOpcode::I64Extend32S));
    assert_eq!(WasmOpcode::from_u8(0xC5), None);
    assert_eq!(WasmOpcode::from_u8(0x06), None);
    assert_eq!(WasmOpcode::from_u8(0x12), None);
    assert_eq!(WasmOpcode::from_u8(0x25), None);
    for b in 0..=255u8 {
        if let Some(op) = WasmOpcode::from_u8(b) {
            assert_eq!(op.to_u8(), b);
        }
    }
    assert_eq!(WasmOpcode::BrTable.operand(), WasmOperand::BrTable);
    assert_eq!(WasmOpcode::I64Load32U.operand(), WasmOperand::MemArg);
    assert_eq!(WasmOpcode::If.operand(), WasmOperand::BlockType);
    assert_eq!(WasmOpcode::I64Const.operand(), WasmOperand::Integer);
    assert_eq!(WasmOpcode::F64Const.operand(), WasmOperand::Bytes8);
    assert_eq!(WasmOpcode::Nop.operand(), WasmOperand::Plain);
    assert_eq!(WasmOpcode::LocalTee.operand(), WasmOperand::Index);
    assert_eq!((WasmOpcode::Select.pops(), WasmOpcode::Select.pushes()), (3, 1));
    assert_eq!((WasmOpcode::I64Store.pops(), WasmOpcode::I64Store.pushes()), (2, 0));
    assert_eq!((WasmOpcode::I32Load8S.pops(), WasmOpcode::I32Load8S.pushes()), (1, 1));
    assert_eq!((WasmOpcode::I64Eqz.pops(), WasmOpcode::I64Eqz.pushes()), (1, 1));
    assert_eq!((WasmOpcode::I32Const.pops(), WasmOpcode::I32Const.pushes()), (0, 1));
    assert_eq!((WasmOpcode::F64Mul.pops(), WasmOpcode::F64Mul.pushes()), (2, 1));
    assert_eq!((WasmOpcode::LocalSet.pops(), WasmOpcode::LocalSet.pushes()), (1, 0));
}
