use wasm_o::wasm::{
    WasmDecodeError, WasmExportKind, WasmLoader, WasmModule, WasmType, WasmValType,
};

fn no_linker(_module: &str, _name: &str, _func_type: &WasmType) -> Result<usize, WasmDecodeError> {
    Err(WasmDecodeError::DynamicLinkError)
}

fn any_linker(_module: &str, name: &str, _func_type: &WasmType) -> Result<usize, WasmDecodeError> {
    Ok(name.len())
}

fn section(id: u8, payload: &[u8]) -> Vec<u8> {
    assert!(payload.len() < 128);
    let mut out = vec![id, payload.len() as u8];
    out.extend_from_slice(payload);
    out
}

fn blob(sections: &[Vec<u8>]) -> Vec<u8> {
    let mut out = vec![0x00, 0x61, 0x73, 0x6D, 0x01, 0x00, 0x00, 0x00];
    for s in sections {
        out.extend_from_slice(s);
    }
    out
}

fn load(sections: &[Vec<u8>]) -> Result<WasmModule, WasmDecodeError> {
    WasmLoader::instantiate(&blob(sections), &no_linker)
}

fn types() -> Vec<u8> {
    section(1, &[0x02, 0x60, 0x02, 0x7F, 0x7E, 0x01, 0x7F, 0x60, 0x00, 0x00])
}

#[test]
fn header_only_is_an_empty_module() {
    let module = load(&[]).unwrap();
    assert_eq!(module.types().len(), 0);
    assert_eq!(module.functions().len(), 0);
    assert!(module.memory(0).is_none());
    assert_eq!(module.globals().len(), 0);
    assert_eq!(module.exports.len(), 0);
}

#[test]
fn bad_magic() {
    assert_eq!(
        WasmLoader::instantiate(&[0x00, 0x61, 0x73, 0x6E, 1, 0, 0, 0], &no_linker).err(),
        Some(WasmDecodeError::BadExecutable)
    );
    assert_eq!(
        WasmLoader::instantiate(&[], &no_linker).err(),
        Some(WasmDecodeError::BadExecutable)
    );
    assert_eq!(
        WasmLoader::instantiate(&[0x00, 0x61, 0x73], &no_linker).err(),
        Some(WasmDecodeError::BadExecutable)
    );
}

#[test]
fn bad_version() {
    assert_eq!(
        WasmLoader::instantiate(&[0x00, 0x61, 0x73, 0x6D, 2, 0, 0, 0], &no_linker).err(),
        Some(WasmDecodeError::BadVersion)
    );
    assert_eq!(
        WasmLoader::instantiate(&[0x00, 0x61, 0x73, 0x6D, 1, 0, 0], &no_linker).err(),
        Some(WasmDecodeError::BadVersion)
    );
    assert_eq!(
        WasmLoader::instantiate(&[0x00, 0x61, 0x73, 0x6D, 1, 0, 0, 1], &no_linker).err(),
        Some(WasmDecodeError::BadVersion)
    );
}

#[test]
fn type_section_is_decoded() {
    let module = load(&[types()]).unwrap();
    assert_eq!(module.types().len(), 2);
    assert_eq!(module.types()[0].param_types(), &[WasmValType::I32, WasmValType::I64]);
    assert_eq!(module.types()[0].result_types(), &[WasmValType::I32]);
    assert_eq!(module.types()[1].param_types(), &[]);
    assert_eq!(module.types()[1].result_types(), &[]);
}

#[test]
fn type_section_with_a_wrong_form_byte() {
    assert_eq!(
        load(&[section(1, &[0x01, 0x61, 0x00, 0x00])]).err(),
        Some(WasmDecodeError::UnexpectedToken)
    );
    assert_eq!(
        load(&[section(1, &[0x01, 0x60, 0x01, 0x7B, 0x00])]).err(),
        Some(WasmDecodeError::UnexpectedToken)
    );
}

#[test]
fn payload_shorter_or_longer_than_its_items() {
    assert_eq!(
        load(&[section(1, &[0x02, 0x60, 0x00, 0x00])]).err(),
        Some(WasmDecodeError::UnexpectedEof)
    );
    assert_eq!(
        load(&[section(1, &[0x01, 0x60, 0x00, 0x00, 0x00])]).err(),
        Some(WasmDecodeError::UnexpectedToken)
    );
    let mut bytes = blob(&[]);
    bytes.extend_from_slice(&[0x01, 0x05, 0x00]);
    assert_eq!(
        WasmLoader::instantiate(&bytes, &no_linker).err(),
        Some(WasmDecodeError::UnexpectedEof)
    );
    let mut bytes = blob(&[]);
    bytes.push(0x01);
    assert_eq!(
        WasmLoader::instantiate(&bytes, &no_linker).err(),
        Some(WasmDecodeError::UnexpectedEof)
    );
}

#[test]
fn unknown_section() {
    assert_eq!(load(&[section(13, &[])]).err(), Some(WasmDecodeError::UnsupportedSection));
    assert_eq!(load(&[section(0xFF, &[])]).err(), Some(WasmDecodeError::UnsupportedSection));
}

#[test]
fn sections_out_of_order() {
    assert_eq!(
        load(&[section(3, &[0x00]), types()]).err(),
        Some(WasmDecodeError::UnexpectedToken)
    );
    assert_eq!(load(&[types(), types()]).err(), Some(WasmDecodeError::UnexpectedToken));
}

#[test]
fn custom_sections_may_stand_anywhere() {
    let module = load(&[
        section(0, &[0x01, b'x', 0xFF]),
        types(),
        section(0, &[]),
        section(3, &[0x01, 0x01]),
        section(0, &[0x00]),
    ])
    .unwrap();
    assert_eq!(module.types().len(), 2);
    assert_eq!(module.functions().len(), 1);
}

#[test]
fn skipped_sections() {
    let module = load(&[
        types(),
        section(4, &[0x01, 0x70, 0x00, 0x00]),
        section(8, &[0x00]),
        section(9, &[0x00]),
        section(11, &[0x00]),
        section(12, &[0x00]),
    ])
    .unwrap();
    assert_eq!(module.types().len(), 2);
}

#[test]
fn function_section_makes_slots_without_code() {
    let module = load(&[types(), section(3, &[0x02, 0x01, 0x00])]).unwrap();
    assert_eq!(module.functions().len(), 2);
    assert_eq!(module.functions()[0].type_index(), 1);
    assert_eq!(module.functions()[1].type_index(), 0);
    assert_eq!(module.functions()[1].param_types(), &[WasmValType::I32, WasmValType::I64]);
    assert_eq!(module.functions()[1].result_types(), &[WasmValType::I32]);
    assert!(module.functions()[0].body().is_none());
    assert!(!module.functions()[0].is_import());
}

#[test]
fn function_of_an_unknown_type() {
    assert_eq!(
        load(&[types(), section(3, &[0x01, 0x02])]).err(),
        Some(WasmDecodeError::InvalidParameter)
    );
}

#[test]
fn imports_are_resolved_by_the_linker() {
    let imports = section(
        2,
        &[
            0x04, 0x01, b'a', 0x02, b'f', b'n', 0x00, 0x01, 0x01, b'a', 0x01, b't', 0x01, 0x70,
            0x00, 0x01, 0x01, b'a', 0x01, b'm', 0x02, 0x01, 0x01, 0x02, 0x01, b'a', 0x03, b'g',
            b'l', b'o', 0x03, 0x7F, 0x00,
        ],
    );
    let module = WasmLoader::instantiate(
        &blob(&[types(), imports.clone(), section(3, &[0x01, 0x00])]),
        &any_linker,
    )
    .unwrap();
    assert_eq!(module.functions().len(), 2);
    let import = module.functions()[0].import.as_ref().unwrap();
    assert_eq!(import.module_name, "a");
    assert_eq!(import.name, "fn");
    assert_eq!(import.handle, 2);
    assert_eq!(module.functions()[0].type_index(), 1);
    assert!(module.functions()[1].import.is_none());
    assert!(module.memory(0).is_none());

    assert_eq!(
        WasmLoader::instantiate(&blob(&[types(), imports]), &no_linker).err(),
        Some(WasmDecodeError::DynamicLinkError)
    );
}

#[test]
fn import_of_an_unknown_kind_or_type() {
    assert_eq!(
        WasmLoader::instantiate(
            &blob(&[types(), section(2, &[0x01, 0x00, 0x00, 0x04, 0x00])]),
            &any_linker
        )
        .err(),
        Some(WasmDecodeError::UnexpectedToken)
    );
    assert_eq!(
        WasmLoader::instantiate(
            &blob(&[types(), section(2, &[0x01, 0x00, 0x00, 0x00, 0x05])]),
            &any_linker
        )
        .err(),
        Some(WasmDecodeError::InvalidParameter)
    );
    assert_eq!(
        WasmLoader::instantiate(
            &blob(&[types(), section(2, &[0x01, 0x01, 0xFF, 0x00, 0x00, 0x00])]),
            &any_linker
        )
        .err(),
        Some(WasmDecodeError::UnexpectedToken)
    );
}

#[test]
fn memory_section() {
    let module = load(&[section(5, &[0x01, 0x01, 0x02, 0x10])]).unwrap();
    let memory = module.memory(0).unwrap();
    assert_eq!(memory.size(), 2);
    assert_eq!(memory.byte_length(), 131072);
    assert_eq!(memory.limit().min, 2);
    assert_eq!(memory.limit().max, Some(16));
    assert!(module.memory(1).is_none());

    let module = load(&[section(5, &[0x00])]).unwrap();
    assert!(module.memory(0).is_none());
}

#[test]
fn memory_section_that_is_refused() {
    assert_eq!(
        load(&[section(5, &[0x02, 0x00, 0x01, 0x00, 0x01])]).err(),
        Some(WasmDecodeError::InvalidParameter)
    );
    assert_eq!(
        load(&[section(5, &[0x01, 0x02, 0x01])]).err(),
        Some(WasmDecodeError::UnexpectedToken)
    );
    assert_eq!(
        load(&[section(5, &[0x01, 0x00, 0x81, 0x80, 0x04])]).err(),
        Some(WasmDecodeError::InvalidParameter)
    );
    assert_eq!(
        load(&[section(5, &[0x01, 0x00, 0x80, 0x80, 0x80, 0x80, 0x10])]).err(),
        Some(WasmDecodeError::InvalidParameter)
    );
}

#[test]
fn global_section() {
    let module = load(&[section(
        6,
        &[
            0x03, 0x7F, 0x00, 0x41, 0x7F, 0x0B, 0x7E, 0x01, 0x42, 0x80, 0x01, 0x0B, 0x7F, 0x00,
            0x23, 0x00, 0x0B,
        ],
    )])
    .unwrap();
    let globals = module.globals();
    assert_eq!(globals.len(), 3);
    assert_eq!(globals[0].val_type, WasmValType::I32);
    assert!(!globals[0].is_mutable);
    assert_eq!(globals[0].value.get_i32(), -1);
    assert_eq!(globals[1].val_type, WasmValType::I64);
    assert!(globals[1].is_mutable);
    assert_eq!(globals[1].value.get_i64(), 128);
    assert_eq!(globals[2].value.get_i32(), -1);
}

#[test]
fn global_section_that_is_refused() {
    assert_eq!(
        load(&[section(6, &[0x01, 0x7F, 0x00, 0x23, 0x00, 0x0B])]).err(),
        Some(WasmDecodeError::InvalidParameter)
    );
    assert_eq!(
        load(&[section(6, &[0x01, 0x7F, 0x00, 0x6A, 0x0B])]).err(),
        Some(WasmDecodeError::InvalidBytecode)
    );
    assert_eq!(
        load(&[section(6, &[0x01, 0x7F, 0x00, 0x41, 0x00, 0x41])]).err(),
        Some(WasmDecodeError::UnexpectedToken)
    );
    assert_eq!(
        load(&[section(6, &[0x01, 0x7F, 0x02, 0x41, 0x00, 0x0B])]).err(),
        Some(WasmDecodeError::UnexpectedToken)
    );
    assert_eq!(
        load(&[section(6, &[0x01, 0x00, 0x00, 0x41, 0x00, 0x0B])]).err(),
        Some(WasmDecodeError::UnexpectedToken)
    );
}

#[test]
fn export_section_and_last_wins() {
    let module = load(&[
        types(),
        section(3, &[0x03, 0x01, 0x01, 0x01]),
        section(5, &[0x01, 0x00, 0x00]),
        section(
            7,
            &[
                0x04, 0x01, b'f', 0x00, 0x00, 0x01, b'f', 0x02, 0x00, 0x01, b'f', 0x00, 0x02,
                0x01, b'm', 0x02, 0x00,
            ],
        ),
    ])
    .unwrap();
    assert_eq!(module.exports.len(), 4);
    assert_eq!(module.exports[1].kind, WasmExportKind::Memory);
    assert_eq!(module.exports[1].name, "f");
    assert_eq!(module.func("f"), Ok(2));
    assert!(module.func("m").is_err());
    assert!(module.func("").is_err());
}

#[test]
fn export_of_an_unknown_kind_or_with_a_bad_name() {
    assert_eq!(
        load(&[section(7, &[0x01, 0x01, b'f', 0x04, 0x00])]).err(),
        Some(WasmDecodeError::UnexpectedToken)
    );
    assert_eq!(
        load(&[section(7, &[0x01, 0x01, 0x80, 0x00, 0x00])]).err(),
        Some(WasmDecodeError::UnexpectedToken)
    );
}

#[test]
fn code_section_gives_the_functions_their_bodies() {
    let module = load(&[
        types(),
        section(3, &[0x02, 0x00, 0x01]),
        section(
            10,
            &[
                0x02, 0x09, 0x02, 0x02, 0x7F, 0x01, 0x7E, 0x20, 0x00, 0x1A, 0x0B, 0x05, 0x00,
                0x02, 0x40, 0x0B, 0x0B,
            ],
        ),
    ])
    .unwrap();
    let first = module.functions()[0].body().unwrap();
    assert_eq!(first.param_types(), &[WasmValType::I32, WasmValType::I64]);
    assert_eq!(
        first.local_types(),
        &[WasmValType::I32, WasmValType::I32, WasmValType::I64]
    );
    assert_eq!(first.result_types(), &[WasmValType::I32]);
    assert_eq!(first.code_block(), &[0x20, 0x00, 0x1A, 0x0B]);
    assert_eq!(first.block_info().max_stack(), 1);
    let second = module.functions()[1].body().unwrap();
    assert_eq!(second.local_types(), &[]);
    assert_eq!(second.code_block(), &[0x02, 0x40, 0x0B, 0x0B]);
    assert_eq!(second.block_info().max_block_level(), 1);
    assert_eq!(second.block_info().block_info(2).unwrap().end_position, 3);
}

#[test]
fn code_section_that_is_refused() {
    assert_eq!(
        load(&[types(), section(3, &[0x01, 0x01]), section(10, &[0x02, 0x02, 0x00, 0x0B, 0x02, 0x00, 0x0B])]).err(),
        Some(WasmDecodeError::InvalidParameter)
    );
    assert_eq!(
        load(&[types(), section(3, &[0x01, 0x01]), section(10, &[0x01, 0x03, 0x00, 0x06, 0x0B])]).err(),
        Some(WasmDecodeError::InvalidBytecode)
    );
    assert_eq!(
        load(&[types(), section(3, &[0x01, 0x01]), section(10, &[0x01, 0x02, 0x00, 0x01])]).err(),
        Some(WasmDecodeError::UnexpectedEof)
    );
    assert_eq!(
        load(&[types(), section(3, &[0x01, 0x01]), section(10, &[0x01, 0x05, 0x00, 0x0B])]).err(),
        Some(WasmDecodeError::UnexpectedEof)
    );
    assert_eq!(
        load(&[types(), section(3, &[0x01, 0x01]), section(10, &[0x01, 0x04, 0x01, 0x01, 0x7A, 0x0B])]).err(),
        Some(WasmDecodeError::UnexpectedToken)
    );
    assert_eq!(
        load(&[types(), section(3, &[0x01, 0x01]), section(10, &[0x01, 0x04, 0x00, 0x10, 0x07, 0x0B])]).err(),
        Some(WasmDecodeError::InvalidParameter)
    );
}

#[test]
fn body_after_an_import_goes_to_the_first_defined_function() {
    let module = WasmLoader::instantiate(
        &blob(&[
            types(),
            section(2, &[0x01, 0x00, 0x01, b'h', 0x00, 0x01]),
            section(3, &[0x01, 0x01]),
            section(10, &[0x01, 0x04, 0x00, 0x10, 0x00, 0x0B]),
        ]),
        &any_linker,
    )
    .unwrap();
    assert!(module.functions()[0].body().is_none());
    assert_eq!(
        module.functions()[1].body().unwrap().code_block(),
        &[0x10, 0x00, 0x0B]
    );
}

#[test]
fn loading_twice_gives_the_same_module() {
    let bytes = blob(&[
        types(),
        section(2, &[0x01, 0x01, b'e', 0x01, b'h', 0x00, 0x01]),
        section(3, &[0x02, 0x00, 0x01]),
        section(5, &[0x01, 0x01, 0x01, 0x01]),
        section(6, &[0x01, 0x7F, 0x01, 0x41, 0x2A, 0x0B]),
        section(7, &[0x01, 0x01, b'f', 0x00, 0x01]),
        section(
            10,
            &[
                0x02, 0x0C, 0x01, 0x01, 0x7F, 0x02, 0x40, 0x03, 0x40, 0x0B, 0x0B, 0x41, 0x00,
                0x0B, 0x02, 0x00, 0x0B,
            ],
        ),
    ]);
    let a = WasmLoader::instantiate(&bytes, &any_linker).unwrap();
    let b = WasmLoader::instantiate(&bytes, &any_linker).unwrap();
    assert_eq!(a.types().len(), b.types().len());
    for (x, y) in a.types().iter().zip(b.types().iter()) {
        assert_eq!(x.param_types(), y.param_types());
        assert_eq!(x.result_types(), y.result_types());
    }
    assert_eq!(a.functions().len(), 3);
    assert_eq!(a.functions().len(), b.functions().len());
    for (x, y) in a.functions().iter().zip(b.functions().iter()) {
        assert_eq!(x.type_index(), y.type_index());
        assert_eq!(x.param_types(), y.param_types());
        assert_eq!(x.result_types(), y.result_types());
        assert_eq!(x.is_import(), y.is_import());
        match (&x.import, &y.import) {
            (Some(i), Some(j)) => {
                assert_eq!(i.module_name, j.module_name);
                assert_eq!(i.name, j.name);
                assert_eq!(i.handle, j.handle);
            }
            (None, None) => {}
            _ => panic!("imports differ"),
        }
        match (x.body(), y.body()) {
            (Some(p), Some(q)) => {
                assert_eq!(p.code_block(), q.code_block());
                assert_eq!(p.local_types(), q.local_types());
                assert_eq!(p.block_info().max_stack(), q.block_info().max_stack());
                assert_eq!(p.block_info().max_block_level(), q.block_info().max_block_level());
                assert_eq!(p.block_info().blocks, q.block_info().blocks);
            }
            (None, None) => {}
            _ => panic!("bodies differ"),
        }
    }
    assert_eq!(a.memory(0).unwrap().data, b.memory(0).unwrap().data);
    assert_eq!(a.memory(0).unwrap().limit(), b.memory(0).unwrap().limit());
    assert_eq!(a.globals(), b.globals());
    assert_eq!(a.exports.len(), b.exports.len());
    assert_eq!(a.exports[0].name, b.exports[0].name);
    assert_eq!(a.exports[0].index, b.exports[0].index);
    assert_eq!(a.func("f"), Ok(1));
}
