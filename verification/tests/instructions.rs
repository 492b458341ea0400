use wasm_o::wasm::{
    Leb128Stream, WasmBlockInfo, WasmFunction, WasmGlobal, WasmLimit, WasmMemory, WasmModule,
    WasmRuntimeError, WasmStackValue, WasmValType, WasmValue,
};
use wasm_o::wasmintr::{WasmCodeBlock, WasmInterpreter};

fn refusing_host(_handle: usize, _module: &WasmModule, _params: &[WasmValue]) -> Result<WasmValue, WasmRuntimeError> {
    Err(WasmRuntimeError::InvalidParameter)
}

/// Runs `code` with the given locals and result types in `module`.
fn run_in(
    module: &mut WasmModule,
    code: &[u8],
    locals: &[WasmValue],
    results: &[WasmValType],
) -> Result<WasmValue, WasmRuntimeError> {
    let mut stream = Leb128Stream::from_slice(code);
    let info = WasmBlockInfo::analyze(&mut stream, &[], results, module).unwrap();
    let mut code_block = WasmCodeBlock::from_slice(code, &info);
    let mut locals = locals.to_vec();
    let mut budget = 100_000;
    WasmInterpreter::run(&mut code_block, &mut locals, results, module, &refusing_host, &mut budget)
}

fn with_memory() -> WasmModule {
    let mut module = WasmModule::new();
    module
        .memories
        .push(WasmMemory::new(WasmLimit { min: 1, max: None }).unwrap());
    module
}

fn i64_of(code: &[u8], a: i64, b: i64) -> Result<WasmValue, WasmRuntimeError> {
    let mut module = WasmModule::new();
    run_in(
        &mut module,
        code,
        &[WasmValue::I64(a), WasmValue::I64(b)],
        &[WasmValType::I64],
    )
}

#[test]
fn i64_operators_in_code() {
    assert_eq!(i64_of(&[0x20, 0, 0x20, 1, 0x7C, 0x0B], i64::MAX, 1), Ok(WasmValue::I64(i64::MIN)));
    assert_eq!(i64_of(&[0x20, 0, 0x20, 1, 0x7D, 0x0B], 0, 1), Ok(WasmValue::I64(-1)));
    assert_eq!(i64_of(&[0x20, 0, 0x20, 1, 0x7E, 0x0B], 1 << 62, 4), Ok(WasmValue::I64(0)));
    assert_eq!(i64_of(&[0x20, 0, 0x20, 1, 0x7F, 0x0B], -9, 2), Ok(WasmValue::I64(-4)));
    assert_eq!(i64_of(&[0x20, 0, 0x20, 1, 0x7F, 0x0B], 1, 0), Err(WasmRuntimeError::DivideByZero));
    assert_eq!(
        i64_of(&[0x20, 0, 0x20, 1, 0x7F, 0x0B], i64::MIN, -1),
        Err(WasmRuntimeError::IntegerOverflow)
    );
    assert_eq!(i64_of(&[0x20, 0, 0x20, 1, 0x80, 0x0B], -1, 2), Ok(WasmValue::I64(i64::MAX)));
    assert_eq!(i64_of(&[0x20, 0, 0x20, 1, 0x81, 0x0B], -9, 2), Ok(WasmValue::I64(-1)));
    assert_eq!(i64_of(&[0x20, 0, 0x20, 1, 0x82, 0x0B], 9, 4), Ok(WasmValue::I64(1)));
    assert_eq!(i64_of(&[0x20, 0, 0x20, 1, 0x83, 0x0B], 0b1100, 0b1010), Ok(WasmValue::I64(0b1000)));
    assert_eq!(i64_of(&[0x20, 0, 0x20, 1, 0x84, 0x0B], 0b1100, 0b1010), Ok(WasmValue::I64(0b1110)));
    assert_eq!(i64_of(&[0x20, 0, 0x20, 1, 0x85, 0x0B], 0b1100, 0b1010), Ok(WasmValue::I64(0b0110)));
    assert_eq!(i64_of(&[0x20, 0, 0x20, 1, 0x86, 0x0B], 1, 67), Ok(WasmValue::I64(8)));
    assert_eq!(i64_of(&[0x20, 0, 0x20, 1, 0x87, 0x0B], -32, 2), Ok(WasmValue::I64(-8)));
    assert_eq!(i64_of(&[0x20, 0, 0x20, 1, 0x88, 0x0B], -1, 63), Ok(WasmValue::I64(1)));
    assert_eq!(i64_of(&[0x20, 0, 0x20, 1, 0x89, 0x0B], i64::MIN, 1), Ok(WasmValue::I64(1)));
    assert_eq!(i64_of(&[0x20, 0, 0x20, 1, 0x8A, 0x0B], 1, 1), Ok(WasmValue::I64(i64::MIN)));
    assert_eq!(i64_of(&[0x20, 0, 0x79, 0x0B], 1, 0), Ok(WasmValue::I64(63)));
    assert_eq!(i64_of(&[0x20, 0, 0x7A, 0x0B], 0, 0), Ok(WasmValue::I64(64)));
    assert_eq!(i64_of(&[0x20, 0, 0x7B, 0x0B], -1, 0), Ok(WasmValue::I64(64)));
    assert_eq!(i64_of(&[0x20, 0, 0xC2, 0x0B], 0xFF, 0), Ok(WasmValue::I64(-1)));
    assert_eq!(i64_of(&[0x20, 0, 0xC3, 0x0B], 0x8000, 0), Ok(WasmValue::I64(-32768)));
    assert_eq!(i64_of(&[0x20, 0, 0xC4, 0x0B], 0xFFFF_FFFF, 0), Ok(WasmValue::I64(-1)));
}

fn i32_of(code: &[u8], a: i32, b: i32) -> Result<WasmValue, WasmRuntimeError> {
    let mut module = WasmModule::new();
    run_in(
        &mut module,
        code,
        &[WasmValue::I32(a), WasmValue::I32(b)],
        &[WasmValType::I32],
    )
}

#[test]
fn i32_operators_in_code() {
    assert_eq!(i32_of(&[0x20, 0, 0x20, 1, 0x6C, 0x0B], 0x10000, 0x10000), Ok(WasmValue::I32(0)));
    assert_eq!(i32_of(&[0x20, 0, 0x20, 1, 0x6E, 0x0B], -1, 2), Ok(WasmValue::I32(i32::MAX)));
    assert_eq!(i32_of(&[0x20, 0, 0x20, 1, 0x6E, 0x0B], 1, 0), Err(WasmRuntimeError::DivideByZero));
    assert_eq!(i32_of(&[0x20, 0, 0x20, 1, 0x6F, 0x0B], -7, 3), Ok(WasmValue::I32(-1)));
    assert_eq!(i32_of(&[0x20, 0, 0x20, 1, 0x70, 0x0B], -1, 10), Ok(WasmValue::I32(5)));
    assert_eq!(i32_of(&[0x20, 0, 0x20, 1, 0x70, 0x0B], 1, 0), Err(WasmRuntimeError::DivideByZero));
    assert_eq!(i32_of(&[0x20, 0, 0x20, 1, 0x71, 0x0B], 12, 10), Ok(WasmValue::I32(8)));
    assert_eq!(i32_of(&[0x20, 0, 0x20, 1, 0x72, 0x0B], 12, 10), Ok(WasmValue::I32(14)));
    assert_eq!(i32_of(&[0x20, 0, 0x20, 1, 0x73, 0x0B], 12, 10), Ok(WasmValue::I32(6)));
    assert_eq!(i32_of(&[0x20, 0, 0x20, 1, 0x74, 0x0B], 1, 35), Ok(WasmValue::I32(8)));
    assert_eq!(i32_of(&[0x20, 0, 0x20, 1, 0x75, 0x0B], -32, 34), Ok(WasmValue::I32(-8)));
    assert_eq!(i32_of(&[0x20, 0, 0x20, 1, 0x76, 0x0B], -1, 31), Ok(WasmValue::I32(1)));
    assert_eq!(i32_of(&[0x20, 0, 0x20, 1, 0x77, 0x0B], i32::MIN, 1), Ok(WasmValue::I32(1)));
    assert_eq!(i32_of(&[0x20, 0, 0x20, 1, 0x78, 0x0B], 1, 33), Ok(WasmValue::I32(i32::MIN)));
    assert_eq!(i32_of(&[0x20, 0, 0x67, 0x0B], 1, 0), Ok(WasmValue::I32(31)));
    assert_eq!(i32_of(&[0x20, 0, 0x68, 0x0B], 16, 0), Ok(WasmValue::I32(4)));
    assert_eq!(i32_of(&[0x20, 0, 0x69, 0x0B], 0x0F0F, 0), Ok(WasmValue::I32(8)));
    assert_eq!(i32_of(&[0x20, 0, 0x45, 0x0B], 0, 0), Ok(WasmValue::I32(1)));
    assert_eq!(i32_of(&[0x20, 0, 0x45, 0x0B], 2, 0), Ok(WasmValue::I32(0)));
}

#[test]
fn comparisons_in_code() {
    let signed = [(0x48u8, 1), (0x4A, 0), (0x4C, 1), (0x4E, 0), (0x46, 0), (0x47, 1)];
    for (op, expected) in signed {
        assert_eq!(i32_of(&[0x20, 0, 0x20, 1, op, 0x0B], -1, 1), Ok(WasmValue::I32(expected)));
    }
    let unsigned = [(0x49u8, 0), (0x4B, 1), (0x4D, 0), (0x4F, 1)];
    for (op, expected) in unsigned {
        assert_eq!(i32_of(&[0x20, 0, 0x20, 1, op, 0x0B], -1, 1), Ok(WasmValue::I32(expected)));
    }
    let signed64 = [(0x53u8, 1), (0x55, 0), (0x57, 1), (0x59, 0), (0x51, 0), (0x52, 1)];
    for (op, expected) in signed64 {
        let mut module = WasmModule::new();
        assert_eq!(
            run_in(
                &mut module,
                &[0x20, 0, 0x20, 1, op, 0x0B],
                &[WasmValue::I64(-1), WasmValue::I64(1)],
                &[WasmValType::I32]
            ),
            Ok(WasmValue::I32(expected))
        );
    }
    let unsigned64 = [(0x54u8, 0), (0x56, 1), (0x58, 0), (0x5A, 1)];
    for (op, expected) in unsigned64 {
        let mut module = WasmModule::new();
        assert_eq!(
            run_in(
                &mut module,
                &[0x20, 0, 0x20, 1, op, 0x0B],
                &[WasmValue::I64(-1), WasmValue::I64(1)],
                &[WasmValType::I32]
            ),
            Ok(WasmValue::I32(expected))
        );
    }
}

#[test]
fn stores_write_the_low_bytes() {
    let mut module = with_memory();
    // i32.store8, i32.store16, i64.store8, i64.store16, i64.store32 of all-ones values
    let code = [
        0x41, 0x00, 0x41, 0x7F, 0x3A, 0x00, 0x00, // store8 at 0
        0x41, 0x08, 0x41, 0x7F, 0x3B, 0x00, 0x00, // store16 at 8
        0x41, 0x10, 0x42, 0x7F, 0x3C, 0x00, 0x00, // i64.store8 at 16
        0x41, 0x18, 0x42, 0x7F, 0x3D, 0x00, 0x00, // i64.store16 at 24
        0x41, 0x20, 0x42, 0x7F, 0x3E, 0x00, 0x00, // i64.store32 at 32
        0x41, 0x20, 0x42, 0x7F, 0x37, 0x00, 0x08, // i64.store at 32 + 8
        0x0B,
    ];
    assert_eq!(run_in(&mut module, &code, &[], &[]), Ok(WasmValue::Empty));
    let memory = module.memory(0).unwrap();
    assert_eq!(memory.read_u64(0), Ok(0xFF));
    assert_eq!(memory.read_u64(8), Ok(0xFFFF));
    assert_eq!(memory.read_u64(16), Ok(0xFF));
    assert_eq!(memory.read_u64(24), Ok(0xFFFF));
    assert_eq!(memory.read_u64(32), Ok(0xFFFF_FFFF));
    assert_eq!(memory.read_u64(40), Ok(u64::MAX));
    assert_eq!(memory.read_u64(48), Ok(0));
}

#[test]
fn loads_extend_by_their_kind() {
    let mut module = with_memory();
    module.memories[0].write_u64(0, 0x8877_6655_F4F3_F2F1).unwrap();
    let cases: [(u8, WasmValType, WasmValue); 14] = [
        (0x28, WasmValType::I32, WasmValue::I32(0xF4F3_F2F1u32 as i32)),
        (0x29, WasmValType::I64, WasmValue::I64(0x8877_6655_F4F3_F2F1u64 as i64)),
        (0x2C, WasmValType::I32, WasmValue::I32(-15)),
        (0x2D, WasmValType::I32, WasmValue::I32(0xF1)),
        (0x2E, WasmValType::I32, WasmValue::I32(0xF2F1u16 as i16 as i32)),
        (0x2F, WasmValType::I32, WasmValue::I32(0xF2F1)),
        (0x30, WasmValType::I64, WasmValue::I64(-15)),
        (0x31, WasmValType::I64, WasmValue::I64(0xF1)),
        (0x32, WasmValType::I64, WasmValue::I64(0xF2F1u16 as i16 as i64)),
        (0x33, WasmValType::I64, WasmValue::I64(0xF2F1)),
        (0x34, WasmValType::I64, WasmValue::I64(0xF4F3_F2F1u32 as i32 as i64)),
        (0x35, WasmValType::I64, WasmValue::I64(0xF4F3_F2F1)),
        (0x2D, WasmValType::I64, WasmValue::I64(0xF1)),
        (0x28, WasmValType::I64, WasmValue::I64(0xF4F3_F2F1)),
    ];
    for (op, result_type, expected) in cases {
        let code = [0x41, 0x00, op, 0x00, 0x00, 0x0B];
        assert_eq!(run_in(&mut module, &code, &[], &[result_type]), Ok(expected));
    }
    // the offset is added to the base
    assert_eq!(
        run_in(&mut module, &[0x41, 0x02, 0x2D, 0x00, 0x05, 0x0B], &[], &[WasmValType::I32]),
        Ok(WasmValue::I32(0x88))
    );
    // a base beyond the memory
    assert_eq!(
        run_in(&mut module, &[0x41, 0x7F, 0x2D, 0x00, 0x00, 0x0B], &[], &[WasmValType::I32]),
        Err(WasmRuntimeError::OutOfBounds)
    );
    // base and offset that together pass the end
    assert_eq!(
        run_in(
            &mut module,
            &[0x41, 0xFF, 0xFF, 0x03, 0x2D, 0x00, 0x01, 0x0B],
            &[],
            &[WasmValType::I32]
        ),
        Err(WasmRuntimeError::OutOfBounds)
    );
    assert_eq!(
        run_in(
            &mut module,
            &[0x41, 0xFF, 0xFF, 0x03, 0x2D, 0x00, 0x00, 0x0B],
            &[],
            &[WasmValType::I32]
        ),
        Ok(WasmValue::I32(0))
    );
}

#[test]
fn float_memory_instructions_have_no_meaning_here() {
    let mut module = with_memory();
    assert_eq!(
        run_in(&mut module, &[0x41, 0x00, 0x2A, 0x00, 0x00, 0x1A, 0x0B], &[], &[]),
        Err(WasmRuntimeError::InvalidBytecode)
    );
    assert_eq!(
        run_in(&mut module, &[0x41, 0x00, 0x41, 0x00, 0x38, 0x00, 0x00, 0x0B], &[], &[]),
        Err(WasmRuntimeError::InvalidBytecode)
    );
}

#[test]
fn return_leaves_at_once() {
    assert_eq!(i32_of(&[0x41, 0x05, 0x0F, 0x41, 0x07, 0x0B], 0, 0), Ok(WasmValue::I32(5)));
    let code = [0x02, 0x40, 0x03, 0x40, 0x41, 0x09, 0x0F, 0x0B, 0x0B, 0x41, 0x01, 0x0B];
    assert_eq!(i32_of(&code, 0, 0), Ok(WasmValue::I32(9)));
}

#[test]
fn branch_out_of_nested_blocks() {
    // block (result i32) block block i32.const 7 br 2 end end i32.const 8 end
    let code = [
        0x02, 0x7F, 0x02, 0x40, 0x02, 0x40, 0x41, 0x07, 0x0C, 0x02, 0x0B, 0x0B, 0x41, 0x08, 0x0B,
        0x0B,
    ];
    assert_eq!(i32_of(&code, 0, 0), Ok(WasmValue::I32(7)));
    // the same with a branch that is not taken
    let code = [
        0x02, 0x7F, 0x02, 0x40, 0x02, 0x40, 0x41, 0x07, 0x20, 0x00, 0x0D, 0x02, 0x1A, 0x0B, 0x0B,
        0x41, 0x08, 0x0B, 0x0B,
    ];
    assert_eq!(i32_of(&code, 1, 0), Ok(WasmValue::I32(7)));
    assert_eq!(i32_of(&code, 0, 0), Ok(WasmValue::I32(8)));
}

#[test]
fn loop_counts_down_with_a_nested_if() {
    // local1 = 0; loop { if local0 & 1 { local1 += local0 } ; local0 -= 1; br_if 0 while local0 != 0 }
    let code = [
        0x03, 0x40, 0x20, 0x00, 0x41, 0x01, 0x71, 0x04, 0x40, 0x20, 0x01, 0x20, 0x00, 0x6A, 0x21,
        0x01, 0x0B, 0x20, 0x00, 0x41, 0x01, 0x6B, 0x22, 0x00, 0x0D, 0x00, 0x0B, 0x20, 0x01, 0x0B,
    ];
    assert_eq!(i32_of(&code, 9, 0), Ok(WasmValue::I32(9 + 7 + 5 + 3 + 1)));
    assert_eq!(i32_of(&code, 1, 0), Ok(WasmValue::I32(1)));
}

#[test]
fn result_is_read_at_the_declared_type() {
    let mut module = WasmModule::new();
    assert_eq!(
        run_in(&mut module, &[0x42, 0x7F, 0x0B], &[], &[WasmValType::I32]),
        Ok(WasmValue::I32(-1))
    );
    assert_eq!(
        run_in(&mut module, &[0x42, 0x7F, 0x0B], &[], &[WasmValType::I64]),
        Ok(WasmValue::I64(-1))
    );
    assert_eq!(
        run_in(&mut module, &[0x42, 0x7F, 0x0B], &[], &[]),
        Ok(WasmValue::Empty)
    );
    assert_eq!(
        run_in(&mut module, &[0x42, 0x7F, 0x0B], &[], &[WasmValType::F32]),
        Err(WasmRuntimeError::InvalidParameter)
    );
    assert_eq!(
        run_in(&mut module, &[0x0B], &[], &[WasmValType::I64]),
        Err(WasmRuntimeError::InternalInconsistency)
    );
}

#[test]
fn globals_outside_the_table() {
    let mut module = WasmModule::new();
    module.globals.push(WasmGlobal {
        val_type: WasmValType::I64,
        is_mutable: false,
        value: WasmStackValue::from_i64(-3),
    });
    assert_eq!(
        run_in(&mut module, &[0x23, 0x00, 0x0B], &[], &[WasmValType::I64]),
        Ok(WasmValue::I64(-3))
    );
    assert_eq!(
        run_in(&mut module, &[0x23, 0x01, 0x0B], &[], &[WasmValType::I64]),
        Err(WasmRuntimeError::InternalInconsistency)
    );
    assert_eq!(
        run_in(&mut module, &[0x41, 0x01, 0x24, 0x01, 0x0B], &[], &[]),
        Err(WasmRuntimeError::InternalInconsistency)
    );
    // mutability is recorded, not enforced
    assert_eq!(
        run_in(&mut module, &[0x42, 0x09, 0x24, 0x00, 0x0B], &[], &[]),
        Ok(WasmValue::Empty)
    );
    assert_eq!(module.globals()[0].value.get_i64(), 9);
    assert!(!module.globals()[0].is_mutable);
}

#[test]
fn calls_that_cannot_be_made() {
    let mut module = WasmModule::new();
    module.functions.push(WasmFunction {
        type_index: 0,
        param_types: vec![WasmValType::I32],
        result_types: vec![],
        import: None,
        body: None,
    });
    // a function without code
    assert_eq!(
        run_in(&mut module, &[0x41, 0x00, 0x10, 0x00, 0x0B], &[], &[]),
        Err(WasmRuntimeError::InternalInconsistency)
    );
    // too few arguments on the stack
    assert_eq!(
        run_in(&mut module, &[0x10, 0x00, 0x0B], &[], &[]),
        Err(WasmRuntimeError::InternalInconsistency)
    );
}

#[test]
fn indirect_calls_have_no_meaning_here() {
    let bytes = [
        0x00, 0x61, 0x73, 0x6D, 0x01, 0x00, 0x00, 0x00, // header
        0x01, 0x04, 0x01, 0x60, 0x00, 0x00, // one type () -> ()
        0x03, 0x02, 0x01, 0x00, // one function
        0x0A, 0x09, 0x01, 0x07, 0x00, 0x41, 0x00, 0x11, 0x00, 0x00, 0x0B, // call_indirect
    ];
    let linker = |_: &str, _: &str, _: &wasm_o::wasm::WasmType| -> Result<usize, wasm_o::wasm::WasmDecodeError> {
        Err(wasm_o::wasm::WasmDecodeError::DynamicLinkError)
    };
    let mut module = wasm_o::wasm::WasmLoader::instantiate(&bytes, &linker).unwrap();
    let mut budget = 10;
    assert_eq!(
        module.invoke(0, &[], &refusing_host, &mut budget),
        Err(WasmRuntimeError::InvalidBytecode)
    );
    assert_eq!(budget, 8);
}

#[test]
fn host_answers_are_pushed_or_not() {
    let bytes = [
        0x00, 0x61, 0x73, 0x6D, 0x01, 0x00, 0x00, 0x00, // header
        0x01, 0x08, 0x02, 0x60, 0x00, 0x00, 0x60, 0x00, 0x01, 0x7F, // types () -> (), () -> i32
        0x02, 0x0D, 0x02, 0x01, b'h', 0x01, b'a', 0x00, 0x00, 0x01, b'h', 0x01, b'b', 0x00, 0x01,
        0x03, 0x02, 0x01, 0x01, // one function () -> i32
        0x0A, 0x0B, 0x01, 0x09, 0x00, 0x41, 0x05, 0x10, 0x00, 0x10, 0x01, 0x6A, 0x0B, // 5 + b()
    ];
    let linker = |_: &str, name: &str, _: &wasm_o::wasm::WasmType| -> Result<usize, wasm_o::wasm::WasmDecodeError> {
        Ok(if name == "a" { 10 } else { 20 })
    };
    let host = |handle: usize, _: &WasmModule, params: &[WasmValue]| -> Result<WasmValue, WasmRuntimeError> {
        assert!(params.is_empty());
        match handle {
            10 => Ok(WasmValue::Empty),
            20 => Ok(WasmValue::I32(37)),
            _ => Err(WasmRuntimeError::InvalidParameter),
        }
    };
    let mut module = wasm_o::wasm::WasmLoader::instantiate(&bytes, &linker).unwrap();
    let mut budget = 10;
    assert_eq!(module.invoke(2, &[], &host, &mut budget), Ok(WasmValue::I32(42)));
    assert_eq!(budget, 5);
    // a trap of the host is the trap of the call
    let failing = |_: usize, _: &WasmModule, _: &[WasmValue]| -> Result<WasmValue, WasmRuntimeError> {
        Err(WasmRuntimeError::OutOfMemory)
    };
    assert_eq!(module.invoke(2, &[], &failing, &mut budget), Err(WasmRuntimeError::OutOfMemory));
}
