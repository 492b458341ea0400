use wasm_o::wasm::{
    Leb128Stream, WasmBlockInfo, WasmModule, WasmRuntimeError, WasmValType, WasmValue,
};
use wasm_o::wasmintr::{WasmCodeBlock, WasmInterpreter};

fn no_host(_handle: usize, _module: &WasmModule, _params: &[WasmValue]) -> Result<WasmValue, WasmRuntimeError> {
    Err(WasmRuntimeError::InvalidParameter)
}

#[test]
fn add() {
    let slice = [0x20, 0, 0x20, 1, 0x6A, 0x0B];
    let local_types = [WasmValType::I32, WasmValType::I32];
    let result_types = [WasmValType::I32];
    let mut stream = Leb128Stream::from_slice(&slice);
    let mut module = WasmModule::new();
    let block_info =
        WasmBlockInfo::analyze(&mut stream, &local_types, &result_types, &module).unwrap();
    let mut code_block = WasmCodeBlock::from_slice(&slice, &block_info);

    let mut budget = u64::MAX;
    let mut params = [1234.into(), 5678.into()];
    let result = WasmInterpreter::run(
        &mut code_block,
        &mut params,
        &result_types,
        &mut module,
        &no_host,
        &mut budget,
    )
    .unwrap()
    .get_i32()
    .unwrap();
    assert_eq!(result, 6912);

    let mut params = [0xDEADBEEFu32.into(), 0x55555555.into()];
    let result = WasmInterpreter::run(
        &mut code_block,
        &mut params,
        &result_types,
        &mut module,
        &no_host,
        &mut budget,
    )
    .unwrap()
    .get_i32()
    .unwrap();
    assert_eq!(result, 0x34031444);
}

#[test]
fn sub() {
    let slice = [0x20, 0, 0x20, 1, 0x6B, 0x0B];
    let local_types = [WasmValType::I32, WasmValType::I32];
    let result_types = [WasmValType::I32];
    let mut stream = Leb128Stream::from_slice(&slice);
    let mut module = WasmModule::new();
    let block_info =
        WasmBlockInfo::analyze(&mut stream, &local_types, &result_types, &module).unwrap();
    let mut code_block = WasmCodeBlock::from_slice(&slice, &block_info);

    let mut budget = u64::MAX;
    let mut params = [1234.into(), 5678.into()];
    let result = WasmInterpreter::run(
        &mut code_block,
        &mut params,
        &result_types,
        &mut module,
        &no_host,
        &mut budget,
    )
    .unwrap()
    .get_i32()
    .unwrap();
    assert_eq!(result, -4444);

    let mut params = [0x55555555.into(), 0xDEADBEEFu32.into()];
    let result = WasmInterpreter::run(
        &mut code_block,
        &mut params,
        &result_types,
        &mut module,
        &no_host,
        &mut budget,
    )
    .unwrap()
    .get_i32()
    .unwrap();
    assert_eq!(result, 0x76a79666);
}

#[test]
fn loop_test() {
    let slice = [
        0x41, 0x00, 0x21, 0x01, 0x03, 0x40, 0x20, 0x01, 0x41, 0x01, 0x6a, 0x21, 0x01, 0x20,
        0x00, 0x41, 0x01, 0x6b, 0x22, 0x00, 0x0d, 0x00, 0x0b, 0x20, 0x01, 0x0b,
    ];
    let local_types = [WasmValType::I32, WasmValType::I32];
    let result_types = [WasmValType::I32];
    let mut stream = Leb128Stream::from_slice(&slice);
    let mut module = WasmModule::new();
    let block_info =
        WasmBlockInfo::analyze(&mut stream, &local_types, &result_types, &module).unwrap();
    let mut code_block = WasmCodeBlock::from_slice(&slice, &block_info);

    let mut budget = u64::MAX;
    let mut params = [42.into(), 0.into()];
    let result = WasmInterpreter::run(
        &mut code_block,
        &mut params,
        &result_types,
        &mut module,
        &no_host,
        &mut budget,
    )
    .unwrap()
    .get_i32()
    .unwrap();
    assert_eq!(result, 42);
}
