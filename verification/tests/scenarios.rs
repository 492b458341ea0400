use wasm_o::wasm::{
    Leb128Stream, WasmBlockInfo, WasmDecodeError, WasmLoader, WasmModule, WasmRuntimeError,
    WasmType, WasmValType, WasmValue,
};
use wasm_o::wasmintr::{WasmCodeBlock, WasmInterpreter};

fn no_host(_handle: usize, _module: &WasmModule, _params: &[WasmValue]) -> Result<WasmValue, WasmRuntimeError> {
    Err(WasmRuntimeError::InvalidParameter)
}

fn no_linker(_module: &str, _name: &str, _func_type: &WasmType) -> Result<usize, WasmDecodeError> {
    Err(WasmDecodeError::DynamicLinkError)
}

fn leb(mut v: u64) -> Vec<u8> {
    let mut out = Vec::new();
    loop {
        let b = (v & 0x7F) as u8;
        v >>= 7;
        if v == 0 {
            out.push(b);
            return out;
        }
        out.push(b | 0x80);
    }
}

fn section(id: u8, payload: &[u8]) -> Vec<u8> {
    let mut out = vec![id];
    out.extend(leb(payload.len() as u64));
    out.extend_from_slice(payload);
    out
}

fn blob(sections: &[Vec<u8>]) -> Vec<u8> {
    let mut out = vec![0x00, 0x61, 0x73, 0x6D, 0x01, 0x00, 0x00, 0x00];
    for s in sections {
        out.extend_from_slice(s);
    }
    out
}

fn body(code: &[u8]) -> Vec<u8> {
    let mut out = leb(code.len() as u64);
    out.extend_from_slice(code);
    out
}

/// Runs `code` as a function of two i32 parameters and one i32 result in an
/// empty module.
fn run2(code: &[u8], a: i32, b: i32, budget: &mut u64) -> Result<WasmValue, WasmRuntimeError> {
    let types = [WasmValType::I32, WasmValType::I32];
    let results = [WasmValType::I32];
    let mut module = WasmModule::new();
    let mut stream = Leb128Stream::from_slice(code);
    let info = WasmBlockInfo::analyze(&mut stream, &types, &results, &module).unwrap();
    let mut code_block = WasmCodeBlock::from_slice(code, &info);
    let mut params = [WasmValue::I32(a), WasmValue::I32(b)];
    WasmInterpreter::run(&mut code_block, &mut params, &results, &mut module, &no_host, budget)
}

fn run2_ok(code: &[u8], a: i32, b: i32) -> i32 {
    let mut budget = 1_000_000;
    run2(code, a, b, &mut budget).unwrap().get_i32().unwrap()
}

#[test]
fn division_by_zero_traps() {
    let code = [0x20, 0x00, 0x20, 0x01, 0x6D, 0x0B];
    let mut budget = 100;
    assert_eq!(run2(&code, 7, 0, &mut budget), Err(WasmRuntimeError::DivideByZero));
    assert_eq!(budget, 97);
    assert_eq!(run2_ok(&code, 7, 2), 3);
    assert_eq!(run2_ok(&code, -7, 2), -3);
}

#[test]
fn division_of_the_smallest_integer_by_minus_one_traps() {
    let code = [0x20, 0x00, 0x20, 0x01, 0x6D, 0x0B];
    let mut budget = 100;
    assert_eq!(
        run2(&code, i32::MIN, -1, &mut budget),
        Err(WasmRuntimeError::IntegerOverflow)
    );
    let rem = [0x20, 0x00, 0x20, 0x01, 0x6F, 0x0B];
    assert_eq!(run2_ok(&rem, i32::MIN, -1), 0);
}

#[test]
fn every_instruction_costs_one_unit() {
    let code = [0x20, 0, 0x20, 1, 0x6A, 0x0B];
    let mut budget = 4;
    assert_eq!(run2(&code, 1, 2, &mut budget), Ok(WasmValue::I32(3)));
    assert_eq!(budget, 0);
    let mut budget = 3;
    assert_eq!(run2(&code, 1, 2, &mut budget), Err(WasmRuntimeError::BudgetExhausted));
    assert_eq!(budget, 0);
    let mut budget = 0;
    assert_eq!(run2(&code, 1, 2, &mut budget), Err(WasmRuntimeError::BudgetExhausted));
}

#[test]
fn endless_loop_runs_out_of_budget() {
    let code = [0x03, 0x40, 0x0C, 0x00, 0x0B, 0x41, 0x00, 0x0B];
    let mut budget = 1000;
    assert_eq!(run2(&code, 0, 0, &mut budget), Err(WasmRuntimeError::BudgetExhausted));
    assert_eq!(budget, 0);
}

#[test]
fn if_takes_the_arm_of_its_condition() {
    let code = [0x20, 0x00, 0x04, 0x7F, 0x41, 0x01, 0x05, 0x41, 0x02, 0x0B, 0x0B];
    assert_eq!(run2_ok(&code, 1, 0), 1);
    assert_eq!(run2_ok(&code, -5, 0), 1);
    assert_eq!(run2_ok(&code, 0, 0), 2);
}

#[test]
fn if_without_else_is_skipped() {
    let code = [0x20, 0x00, 0x04, 0x40, 0x41, 0x07, 0x21, 0x01, 0x0B, 0x20, 0x01, 0x0B];
    assert_eq!(run2_ok(&code, 1, 3), 7);
    assert_eq!(run2_ok(&code, 0, 3), 3);
}

#[test]
fn branch_out_of_a_block_keeps_its_result() {
    let code = [
        0x02, 0x7F, 0x41, 0x63, 0x41, 0x05, 0x20, 0x00, 0x0D, 0x00, 0x1A, 0x41, 0x09, 0x0B, 0x0B,
    ];
    assert_eq!(run2_ok(&code, 1, 0), 5);
    assert_eq!(run2_ok(&code, 0, 0), 9);
}

#[test]
fn branch_table_picks_the_label_of_the_index() {
    let code = [
        0x02, 0x40, 0x02, 0x40, 0x20, 0x00, 0x0E, 0x02, 0x00, 0x01, 0x01, 0x0B, 0x41, 0x0A, 0x0F,
        0x0B, 0x41, 0x14, 0x0B,
    ];
    assert_eq!(run2_ok(&code, 0, 0), 10);
    assert_eq!(run2_ok(&code, 1, 0), 20);
    assert_eq!(run2_ok(&code, 2, 0), 20);
    assert_eq!(run2_ok(&code, -1, 0), 20);
}

#[test]
fn branch_table_falls_back_to_the_default() {
    let code = [
        0x02, 0x40, 0x02, 0x40, 0x20, 0x00, 0x0E, 0x02, 0x01, 0x01, 0x00, 0x0B, 0x41, 0x0A, 0x0F,
        0x0B, 0x41, 0x14, 0x0B,
    ];
    assert_eq!(run2_ok(&code, 0, 0), 20);
    assert_eq!(run2_ok(&code, 1, 0), 20);
    assert_eq!(run2_ok(&code, 2, 0), 10);
    assert_eq!(run2_ok(&code, 1000, 0), 10);
}

#[test]
fn select_and_drop() {
    let code = [0x41, 0x0B, 0x41, 0x16, 0x20, 0x00, 0x1B, 0x41, 0x00, 0x1A, 0x0B];
    assert_eq!(run2_ok(&code, 1, 0), 11);
    assert_eq!(run2_ok(&code, 0, 0), 22);
}

#[test]
fn local_tee_keeps_the_value() {
    let code = [0x41, 0x2A, 0x22, 0x01, 0x20, 0x01, 0x6A, 0x0B];
    assert_eq!(run2_ok(&code, 0, 0), 84);
}

#[test]
fn constants_are_signed() {
    assert_eq!(run2_ok(&[0x41, 0x7F, 0x0B], 0, 0), -1);
    assert_eq!(run2_ok(&[0x41, 0xFE, 0xFF, 0x03, 0x0B], 0, 0), 65534);
    assert_eq!(run2_ok(&[0x42, 0x7F, 0xA7, 0x0B], 0, 0), -1);
    assert_eq!(run2_ok(&[0x42, 0x80, 0x80, 0x80, 0x80, 0x10, 0x50, 0x0B], 0, 0), 0);
    assert_eq!(run2_ok(&[0x42, 0x80, 0x80, 0x80, 0x80, 0x10, 0xA7, 0x45, 0x0B], 0, 0), 1);
}

#[test]
fn sign_extension_operators() {
    assert_eq!(run2_ok(&[0x20, 0x00, 0xC0, 0x0B], 0x80, 0), -128);
    assert_eq!(run2_ok(&[0x20, 0x00, 0xC1, 0x0B], 0x18000, 0), -32768);
    assert_eq!(run2_ok(&[0x20, 0x00, 0xAC, 0x42, 0x00, 0x53, 0x0B], -1, 0), 1);
    assert_eq!(run2_ok(&[0x20, 0x00, 0xAD, 0x42, 0x00, 0x53, 0x0B], -1, 0), 0);
}

#[test]
fn bytecode_without_meaning_traps() {
    let mut budget = 100;
    assert_eq!(run2(&[0x00, 0x0B], 0, 0, &mut budget), Err(WasmRuntimeError::InvalidBytecode));
    assert_eq!(run2(&[0x43, 0, 0, 0, 0, 0x0B], 0, 0, &mut budget), Err(WasmRuntimeError::InvalidBytecode));
    assert_eq!(run2(&[0x41, 0x00, 0x40, 0x00, 0x0B], 0, 0, &mut budget), Err(WasmRuntimeError::InvalidBytecode));
}

#[test]
fn stack_underflow_is_an_internal_inconsistency() {
    let mut budget = 100;
    assert_eq!(run2(&[0x6A, 0x0B], 0, 0, &mut budget), Err(WasmRuntimeError::InternalInconsistency));
    assert_eq!(run2(&[0x0B], 0, 0, &mut budget), Err(WasmRuntimeError::InternalInconsistency));
    assert_eq!(run2(&[0x20, 0x05, 0x0B], 0, 0, &mut budget), Err(WasmRuntimeError::InternalInconsistency));
    assert_eq!(run2(&[0x0C, 0x00, 0x0B], 0, 0, &mut budget), Err(WasmRuntimeError::InternalInconsistency));
}

#[test]
fn memory_instruction_without_memory() {
    let mut budget = 100;
    assert_eq!(
        run2(&[0x41, 0x00, 0x28, 0x02, 0x00, 0x0B], 0, 0, &mut budget),
        Err(WasmRuntimeError::OutOfMemory)
    );
    assert_eq!(run2(&[0x3F, 0x00, 0x0B], 0, 0, &mut budget), Err(WasmRuntimeError::OutOfMemory));
}

fn types_section() -> Vec<u8> {
    // 0: (i32, i32) -> i32, 1: (i32) -> i32, 2: () -> i32, 3: () -> ()
    section(
        1,
        &[
            0x04, 0x60, 0x02, 0x7F, 0x7F, 0x01, 0x7F, 0x60, 0x01, 0x7F, 0x01, 0x7F, 0x60, 0x00,
            0x01, 0x7F, 0x60, 0x00, 0x00,
        ],
    )
}

fn export_func(name: &str, index: u8) -> Vec<u8> {
    let mut out = leb(name.len() as u64);
    out.extend_from_slice(name.as_bytes());
    out.push(0x00);
    out.push(index);
    out
}

#[test]
fn defined_functions_call_each_other() {
    let mut exports = vec![0x02];
    exports.extend(export_func("add", 0));
    exports.extend(export_func("double", 1));
    let mut code = vec![0x02];
    code.extend(body(&[0x00, 0x20, 0x00, 0x20, 0x01, 0x6A, 0x0B]));
    code.extend(body(&[0x00, 0x20, 0x00, 0x20, 0x00, 0x10, 0x00, 0x0B]));
    let bytes = blob(&[
        types_section(),
        section(3, &[0x02, 0x00, 0x01]),
        section(7, &exports),
        section(10, &code),
    ]);
    let mut module = WasmLoader::instantiate(&bytes, &no_linker).unwrap();

    let add = module.func("add").unwrap();
    assert_eq!(add, 0);
    let mut budget = 100;
    assert_eq!(
        module.invoke(add, &[1234.into(), 5678.into()], &no_host, &mut budget),
        Ok(WasmValue::I32(6912))
    );
    assert_eq!(budget, 96);

    let double = module.func("double").unwrap();
    let mut budget = 100;
    assert_eq!(
        module.invoke(double, &[WasmValue::I32(21)], &no_host, &mut budget),
        Ok(WasmValue::I32(42))
    );
    assert_eq!(budget, 100 - 4 - 4);

    assert_eq!(module.func("triple"), Err(WasmRuntimeError::InvalidParameter));
    assert_eq!(
        module.invoke(add, &[WasmValue::I32(1)], &no_host, &mut budget),
        Err(WasmRuntimeError::InvalidParameter)
    );
    assert_eq!(
        module.invoke(9, &[], &no_host, &mut budget),
        Err(WasmRuntimeError::InvalidParameter)
    );
}

#[test]
fn out_of_bounds_store_traps() {
    let mut exports = vec![0x01];
    exports.extend(export_func("poke", 0));
    let mut code = vec![0x01];
    code.extend(body(&[0x00, 0x41, 0xFE, 0xFF, 0x03, 0x41, 0x01, 0x36, 0x02, 0x00, 0x0B]));
    let bytes = blob(&[
        types_section(),
        section(3, &[0x01, 0x03]),
        section(5, &[0x01, 0x00, 0x01]),
        section(7, &exports),
        section(10, &code),
    ]);
    let mut module = WasmLoader::instantiate(&bytes, &no_linker).unwrap();
    assert_eq!(module.memory(0).unwrap().byte_length(), 65536);
    assert_eq!(module.memory(0).unwrap().size(), 1);
    let poke = module.func("poke").unwrap();
    let mut budget = 100;
    assert_eq!(
        module.invoke(poke, &[], &no_host, &mut budget),
        Err(WasmRuntimeError::OutOfBounds)
    );
    assert!(module.memory(0).unwrap().data.iter().all(|b| *b == 0));
}

#[test]
fn store_at_the_last_bytes_succeeds() {
    let mut code = vec![0x01];
    code.extend(body(&[
        0x00, 0x41, 0xFC, 0xFF, 0x03, 0x41, 0xF8, 0xAC, 0xD1, 0x91, 0x01, 0x36, 0x02, 0x00, 0x41,
        0xFC, 0xFF, 0x03, 0x2D, 0x00, 0x01, 0x0B,
    ]));
    let bytes = blob(&[
        types_section(),
        section(3, &[0x01, 0x02]),
        section(5, &[0x01, 0x00, 0x01]),
        section(10, &code),
    ]);
    let mut module = WasmLoader::instantiate(&bytes, &no_linker).unwrap();
    let mut budget = 100;
    assert_eq!(module.invoke(0, &[], &no_host, &mut budget), Ok(WasmValue::I32(0x56)));
    let memory = module.memory(0).unwrap();
    assert_eq!(memory.read_u32(65532), Ok(0x1234_5678));
    assert_eq!(memory.read_u8(65535), Ok(0x12));
    assert_eq!(memory.read_u8(65536), Err(WasmRuntimeError::OutOfBounds));
    assert_eq!(memory.read_u16(65535), Err(WasmRuntimeError::OutOfBounds));
    assert_eq!(memory.read_u32(65533), Err(WasmRuntimeError::OutOfBounds));
    assert_eq!(memory.read_u64(65529), Err(WasmRuntimeError::OutOfBounds));
    assert_eq!(memory.read_u64(65528), Ok(0x1234_5678_0000_0000));
    assert_eq!(memory.read_u64(u64::MAX), Err(WasmRuntimeError::OutOfBounds));
}

#[test]
fn loads_extend_what_they_read() {
    let mut code = vec![0x01];
    // store 0xFFFE at 16 as i64; load16_s it; add load8_u of byte 17
    code.extend(body(&[
        0x00, 0x41, 0x10, 0x42, 0xFE, 0xFF, 0x03, 0x37, 0x03, 0x00, 0x41, 0x00, 0x2E, 0x01, 0x10,
        0x41, 0x11, 0x2D, 0x00, 0x00, 0x6A, 0x0B,
    ]));
    let bytes = blob(&[
        types_section(),
        section(3, &[0x01, 0x02]),
        section(5, &[0x01, 0x01, 0x01, 0x02]),
        section(10, &code),
    ]);
    let mut module = WasmLoader::instantiate(&bytes, &no_linker).unwrap();
    let mut budget = 100;
    assert_eq!(module.invoke(0, &[], &no_host, &mut budget), Ok(WasmValue::I32(-2 + 0xFF)));
    assert_eq!(module.memory(0).unwrap().limit().max, Some(2));
}

#[test]
fn memory_size_is_counted_in_pages() {
    let mut code = vec![0x01];
    code.extend(body(&[0x00, 0x3F, 0x00, 0x0B]));
    let bytes = blob(&[
        types_section(),
        section(3, &[0x01, 0x02]),
        section(5, &[0x01, 0x00, 0x03]),
        section(10, &code),
    ]);
    let mut module = WasmLoader::instantiate(&bytes, &no_linker).unwrap();
    let mut budget = 100;
    assert_eq!(module.invoke(0, &[], &no_host, &mut budget), Ok(WasmValue::I32(3)));
}

#[test]
fn globals_keep_their_value_between_invocations() {
    let mut code = vec![0x01];
    code.extend(body(&[0x00, 0x23, 0x00, 0x41, 0x01, 0x6A, 0x24, 0x00, 0x23, 0x00, 0x23, 0x01, 0x6A, 0x0B]));
    let bytes = blob(&[
        types_section(),
        section(3, &[0x01, 0x02]),
        section(6, &[0x02, 0x7F, 0x01, 0x41, 0x05, 0x0B, 0x7F, 0x00, 0x23, 0x00, 0x0B]),
        section(10, &code),
    ]);
    let mut module = WasmLoader::instantiate(&bytes, &no_linker).unwrap();
    assert_eq!(module.globals().len(), 2);
    assert!(module.globals()[0].is_mutable);
    assert!(!module.globals()[1].is_mutable);
    assert_eq!(module.globals()[1].value.get_i32(), 5);
    let mut budget = 100;
    assert_eq!(module.invoke(0, &[], &no_host, &mut budget), Ok(WasmValue::I32(11)));
    assert_eq!(module.invoke(0, &[], &no_host, &mut budget), Ok(WasmValue::I32(12)));
    assert_eq!(module.globals()[0].value.get_i32(), 7);
}

#[test]
fn host_call_passthrough() {
    let mut imports = vec![0x01, 0x03];
    imports.extend_from_slice(b"env");
    imports.push(0x05);
    imports.extend_from_slice(b"print");
    imports.extend_from_slice(&[0x00, 0x00]);
    let mut exports = vec![0x01];
    exports.extend(export_func("run", 1));
    let mut code = vec![0x01];
    code.extend(body(&[0x00, 0x41, 0x00, 0x41, 0x05, 0x10, 0x00, 0x0B]));
    let bytes = blob(&[
        types_section(),
        section(2, &imports),
        section(3, &[0x01, 0x02]),
        section(5, &[0x01, 0x00, 0x01]),
        section(7, &exports),
        section(10, &code),
    ]);
    let linker = |module_name: &str, name: &str, func_type: &WasmType| -> Result<usize, WasmDecodeError> {
        if module_name == "env" && name == "print" && func_type.param_types().len() == 2 {
            Ok(7)
        } else {
            Err(WasmDecodeError::DynamicLinkError)
        }
    };
    let host = |handle: usize, module: &WasmModule, params: &[WasmValue]| -> Result<WasmValue, WasmRuntimeError> {
        if handle != 7 {
            return Err(WasmRuntimeError::InvalidParameter);
        }
        let memory = module.memory(0).ok_or(WasmRuntimeError::OutOfMemory)?;
        let base = params[0].get_u32()? as u64;
        let len = params[1].get_u32()? as u64;
        let text = memory.read_bytes(base, len)?;
        if text == b"hello" {
            Ok(WasmValue::I32(len as i32))
        } else {
            Err(WasmRuntimeError::InvalidParameter)
        }
    };
    let mut module = WasmLoader::instantiate(&bytes, &linker).unwrap();
    assert_eq!(module.functions().len(), 2);
    assert!(module.functions()[0].is_import());
    assert!(!module.functions()[1].is_import());
    for (i, b) in b"hello".iter().enumerate() {
        module.memories[0].write_u8(i as u64, *b).unwrap();
    }
    let before = module.memory(0).unwrap().data.clone();
    let run = module.func("run").unwrap();
    let mut budget = 100;
    assert_eq!(module.invoke(run, &[], &host, &mut budget), Ok(WasmValue::I32(5)));
    assert_eq!(budget, 96);
    assert_eq!(module.memory(0).unwrap().data, before);

    module.memories[0].write_u8(0, b'j').unwrap();
    assert_eq!(
        module.invoke(run, &[], &host, &mut budget),
        Err(WasmRuntimeError::InvalidParameter)
    );
    assert_eq!(
        module.invoke(0, &[WasmValue::I32(0), WasmValue::I32(0)], &no_host, &mut budget),
        Err(WasmRuntimeError::InvalidParameter)
    );
}

#[test]
fn runs_are_deterministic() {
    let code = [
        0x41, 0x00, 0x21, 0x01, 0x03, 0x40, 0x20, 0x01, 0x41, 0x01, 0x6a, 0x21, 0x01, 0x20,
        0x00, 0x41, 0x01, 0x6b, 0x22, 0x00, 0x0d, 0x00, 0x0b, 0x20, 0x01, 0x0b,
    ];
    let mut b1 = 10_000;
    let mut b2 = 10_000;
    let r1 = run2(&code, 100, 0, &mut b1);
    let r2 = run2(&code, 100, 0, &mut b2);
    assert_eq!(r1, Ok(WasmValue::I32(100)));
    assert_eq!(r1, r2);
    assert_eq!(b1, b2);
}
