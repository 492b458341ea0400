//! The module loader: it walks the sections of a binary module and builds the
//! module image.

use crate::analyzer::spec_analyze;
use crate::block::WasmBlockInfo;
use crate::error::WasmDecodeError;
use crate::leb128::{
    le_value, spec_read_bytes, spec_read_sint, spec_read_string, spec_read_uint, Leb128Stream,
};
use crate::memory::{WasmMemory, WASM_MAX_PAGES, WASM_PAGE_SIZE};
use crate::module::{
    WasmExport, WasmExportKind, WasmExportView, WasmFunction, WasmFunctionBody,
    WasmFunctionBodyView, WasmFunctionView, WasmGlobal, WasmImport, WasmImportView, WasmModule,
    WasmModuleView, WasmType, WasmTypeView,
};
use crate::stack::WasmStackValue;
use crate::types::{WasmLimit, WasmValType};
use std::rc::Rc;
use vstd::prelude::*;
use vstd::utf8::decode_utf8;

verus! {

/// What the linker answers for an import: a function of the two names and of
/// the signature of the import.
pub type WasmLinkerModel = spec_fn(Seq<char>, Seq<char>, WasmTypeView) -> Result<
    usize,
    WasmDecodeError,
>;

/// The byte at `pos` and the position after it.
pub open spec fn spec_byte(bytes: Seq<u8>, pos: int) -> Result<(u8, int), WasmDecodeError> {
    if 0 <= pos < bytes.len() {
        Ok((bytes[pos], pos + 1))
    } else {
        Err(WasmDecodeError::UnexpectedEof)
    }
}

/// The value type at `pos`. A byte that names no value type is an
/// `UnexpectedToken`.
pub open spec fn spec_val_type(bytes: Seq<u8>, pos: int) -> Result<
    (WasmValType, int),
    WasmDecodeError,
> {
    match spec_byte(bytes, pos) {
        Err(e) => Err(e),
        Ok((b, p)) => match WasmValType::spec_from_u8(b) {
            None => Err(WasmDecodeError::UnexpectedToken),
            Some(t) => Ok((t, p)),
        },
    }
}

/// `acc` followed by the `n` value types from `pos` on.
pub open spec fn spec_val_types(bytes: Seq<u8>, pos: int, n: nat, acc: Seq<WasmValType>) -> Result<
    (Seq<WasmValType>, int),
    WasmDecodeError,
>
    decreases n,
{
    if n == 0 {
        Ok((acc, pos))
    } else {
        match spec_val_type(bytes, pos) {
            Err(e) => Err(e),
            Ok((t, p)) => spec_val_types(bytes, p, (n - 1) as nat, acc.push(t)),
        }
    }
}

/// The vector of value types at `pos`: a count, then that many types.
pub open spec fn spec_val_type_vec(bytes: Seq<u8>, pos: int) -> Result<
    (Seq<WasmValType>, int),
    WasmDecodeError,
> {
    match spec_read_uint(bytes, pos) {
        Err(e) => Err(e),
        Ok((n, p)) => spec_val_types(bytes, p, n as nat, Seq::empty()),
    }
}

/// The function signature at `pos`: the byte `0x60`, the parameter types,
/// the result types. Another first byte is an `UnexpectedToken`.
pub open spec fn spec_func_type(bytes: Seq<u8>, pos: int) -> Result<
    (WasmTypeView, int),
    WasmDecodeError,
> {
    match spec_byte(bytes, pos) {
        Err(e) => Err(e),
        Ok((b, p)) => if b != 0x60 {
            Err(WasmDecodeError::UnexpectedToken)
        } else {
            match spec_val_type_vec(bytes, p) {
                Err(e) => Err(e),
                Ok((params, q)) => match spec_val_type_vec(bytes, q) {
                    Err(e) => Err(e),
                    Ok((results, r)) => Ok((WasmTypeView { params, results }, r)),
                },
            }
        },
    }
}

/// The limits at `pos`: a flag byte, the minimum, and with the flag 1 the
/// maximum. Another flag is an `UnexpectedToken`; a bound that does not fit in
/// 32 bits is an `InvalidParameter`.
pub open spec fn spec_limits(bytes: Seq<u8>, pos: int) -> Result<(WasmLimit, int), WasmDecodeError> {
    match spec_byte(bytes, pos) {
        Err(e) => Err(e),
        Ok((flag, p)) => if flag > 1 {
            Err(WasmDecodeError::UnexpectedToken)
        } else {
            match spec_read_uint(bytes, p) {
                Err(e) => Err(e),
                Ok((min, q)) => if min > u32::MAX {
                    Err(WasmDecodeError::InvalidParameter)
                } else if flag == 0 {
                    Ok((WasmLimit { min: min as u32, max: None }, q))
                } else {
                    match spec_read_uint(bytes, q) {
                        Err(e) => Err(e),
                        Ok((max, r)) => if max > u32::MAX {
                            Err(WasmDecodeError::InvalidParameter)
                        } else {
                            Ok((WasmLimit { min: min as u32, max: Some(max as u32) }, r))
                        },
                    }
                },
            }
        },
    }
}

/// The name at `pos`: a length, then that many bytes of UTF-8.
pub open spec fn spec_name(bytes: Seq<u8>, pos: int) -> Result<(Seq<char>, int), WasmDecodeError> {
    match spec_read_string(bytes, pos) {
        Err(e) => Err(e),
        Ok((run, p)) => Ok((decode_utf8(run), p)),
    }
}

/// An index at `pos` that must be below `bound`; otherwise it is an
/// `InvalidParameter`.
pub open spec fn spec_index(bytes: Seq<u8>, pos: int, bound: nat) -> Result<
    (usize, int),
    WasmDecodeError,
> {
    match spec_read_uint(bytes, pos) {
        Err(e) => Err(e),
        Ok((i, p)) => if i >= bound || i > usize::MAX {
            Err(WasmDecodeError::InvalidParameter)
        } else {
            Ok((i as usize, p))
        },
    }
}

/// A payload has been decoded up to `pos`: bytes that are left over are an
/// `UnexpectedToken`.
pub open spec fn spec_done<T>(bytes: Seq<u8>, pos: int, value: T) -> Result<T, WasmDecodeError> {
    if pos == bytes.len() {
        Ok(value)
    } else {
        Err(WasmDecodeError::UnexpectedToken)
    }
}

/// Reads a byte.
fn read_byte(stream: &mut Leb128Stream) -> (r: Result<u8, WasmDecodeError>)
    ensures
        final(stream).blob@ == old(stream).blob@,
        match spec_byte(old(stream).blob@, old(stream).position as int) {
            Ok((b, p)) => r == Ok::<u8, WasmDecodeError>(b) && final(stream).position == p,
            Err(e) => r == Err::<u8, WasmDecodeError>(e),
        },
{
    stream.read_u8()
}

/// Reads a value type.
fn read_val_type(stream: &mut Leb128Stream) -> (r: Result<WasmValType, WasmDecodeError>)
    ensures
        final(stream).blob@ == old(stream).blob@,
        match spec_val_type(old(stream).blob@, old(stream).position as int) {
            Ok((t, p)) => r == Ok::<WasmValType, WasmDecodeError>(t) && final(stream).position == p,
            Err(e) => r == Err::<WasmValType, WasmDecodeError>(e),
        },
{
    let b: u8 = read_byte(stream)?;
    match WasmValType::from_u8(b) {
        Some(t) => Ok(t),
        None => Err(WasmDecodeError::UnexpectedToken),
    }
}

/// Reads a vector of value types.
fn read_val_type_vec(stream: &mut Leb128Stream) -> (r: Result<Vec<WasmValType>, WasmDecodeError>)
    ensures
        final(stream).blob@ == old(stream).blob@,
        match spec_val_type_vec(old(stream).blob@, old(stream).position as int) {
            Ok((v, p)) => r is Ok && r->Ok_0@ == v && final(stream).position == p,
            Err(e) => r == Err::<Vec<WasmValType>, WasmDecodeError>(e),
        },
{
    let n: u64 = stream.read_uint()?;
    let ghost start = stream.position as int;
    let mut out: Vec<WasmValType> = Vec::new();
    let mut i: u64 = 0;
    while i < n
        invariant
            i <= n,
            stream.blob@ == old(stream).blob@,
            spec_val_types(stream.blob@, stream.position as int, (n - i) as nat, out@)
                == spec_val_type_vec(old(stream).blob@, old(stream).position as int),
        decreases n - i,
    {
        let t: WasmValType = read_val_type(stream)?;
        out.push(t);
        i = i + 1;
    }
    Ok(out)
}

/// Reads a function signature.
fn read_func_type(stream: &mut Leb128Stream) -> (r: Result<WasmType, WasmDecodeError>)
    ensures
        final(stream).blob@ == old(stream).blob@,
        match spec_func_type(old(stream).blob@, old(stream).position as int) {
            Ok((t, p)) => r is Ok && r->Ok_0@ == t && final(stream).position == p,
            Err(e) => r == Err::<WasmType, WasmDecodeError>(e),
        },
{
    let b: u8 = read_byte(stream)?;
    if b != 0x60 {
        return Err(WasmDecodeError::UnexpectedToken);
    }
    let params: Vec<WasmValType> = read_val_type_vec(stream)?;
    let results: Vec<WasmValType> = read_val_type_vec(stream)?;
    Ok(WasmType::new(params, results))
}

/// Reads the limits of a memory or a table.
fn read_limits(stream: &mut Leb128Stream) -> (r: Result<WasmLimit, WasmDecodeError>)
    ensures
        final(stream).blob@ == old(stream).blob@,
        match spec_limits(old(stream).blob@, old(stream).position as int) {
            Ok((l, p)) => r == Ok::<WasmLimit, WasmDecodeError>(l) && final(stream).position == p,
            Err(e) => r == Err::<WasmLimit, WasmDecodeError>(e),
        },
{
    let flag: u8 = read_byte(stream)?;
    if flag > 1 {
        return Err(WasmDecodeError::UnexpectedToken);
    }
    let min: u64 = stream.read_uint()?;
    if min > u32::MAX as u64 {
        return Err(WasmDecodeError::InvalidParameter);
    }
    if flag == 0 {
        return Ok(WasmLimit { min: min as u32, max: None });
    }
    let max: u64 = stream.read_uint()?;
    if max > u32::MAX as u64 {
        return Err(WasmDecodeError::InvalidParameter);
    }
    Ok(WasmLimit { min: min as u32, max: Some(max as u32) })
}

/// Reads a name.
fn read_name(stream: &mut Leb128Stream) -> (r: Result<String, WasmDecodeError>)
    ensures
        final(stream).blob@ == old(stream).blob@,
        match spec_name(old(stream).blob@, old(stream).position as int) {
            Ok((name, p)) => r is Ok && r->Ok_0@ == name && final(stream).position == p,
            Err(e) => r == Err::<String, WasmDecodeError>(e),
        },
{
    let s: &str = stream.read_string()?;
    proof {
        vstd::utf8::encode_utf8_decode_utf8(s@);
    }
    Ok(s.to_owned())
}

/// Reads an index into a table of `bound` entries.
fn read_index(stream: &mut Leb128Stream, bound: usize) -> (r: Result<usize, WasmDecodeError>)
    ensures
        final(stream).blob@ == old(stream).blob@,
        match spec_index(old(stream).blob@, old(stream).position as int, bound as nat) {
            Ok((i, p)) => r == Ok::<usize, WasmDecodeError>(i) && final(stream).position == p && i
                < bound,
            Err(e) => r == Err::<usize, WasmDecodeError>(e),
        },
{
    let i: u64 = stream.read_uint()?;
    if i >= bound as u64 {
        return Err(WasmDecodeError::InvalidParameter);
    }
    Ok(i as usize)
}

/// Checks that a payload has been used up.
fn done(stream: &Leb128Stream) -> (r: Result<(), WasmDecodeError>)
    ensures
        r == spec_done(stream.blob@, stream.position as int, ()),
{
    if stream.position == stream.blob.len() {
        Ok(())
    } else {
        Err(WasmDecodeError::UnexpectedToken)
    }
}

/// `acc` followed by the `n` function signatures from `pos` on.
pub open spec fn spec_types(bytes: Seq<u8>, pos: int, n: nat, acc: Seq<WasmTypeView>) -> Result<
    (Seq<WasmTypeView>, int),
    WasmDecodeError,
>
    decreases n,
{
    if n == 0 {
        Ok((acc, pos))
    } else {
        match spec_func_type(bytes, pos) {
            Err(e) => Err(e),
            Ok((t, p)) => spec_types(bytes, p, (n - 1) as nat, acc.push(t)),
        }
    }
}

/// The module after the type section: its signatures are added to the type
/// table.
pub open spec fn spec_type_section(payload: Seq<u8>, m: WasmModuleView) -> Result<
    WasmModuleView,
    WasmDecodeError,
> {
    match spec_read_uint(payload, 0) {
        Err(e) => Err(e),
        Ok((n, p)) => match spec_types(payload, p, n as nat, m.types) {
            Err(e) => Err(e),
            Ok((types, q)) => spec_done(payload, q, WasmModuleView { types: types, ..m }),
        },
    }
}

/// The function-table entry of a defined function of the signature `index`,
/// before its code is known.
pub open spec fn spec_function_slot(m: WasmModuleView, index: usize) -> WasmFunctionView {
    WasmFunctionView {
        type_index: index,
        param_types: m.types[index as int].params,
        result_types: m.types[index as int].results,
        import: None,
        body: None,
    }
}

/// `acc` followed by the entries of the `n` type indices from `pos` on.
pub open spec fn spec_functions(
    bytes: Seq<u8>,
    pos: int,
    n: nat,
    m: WasmModuleView,
    acc: Seq<WasmFunctionView>,
) -> Result<(Seq<WasmFunctionView>, int), WasmDecodeError>
    decreases n,
{
    if n == 0 {
        Ok((acc, pos))
    } else {
        match spec_index(bytes, pos, m.types.len()) {
            Err(e) => Err(e),
            Ok((i, p)) => spec_functions(
                bytes,
                p,
                (n - 1) as nat,
                m,
                acc.push(spec_function_slot(m, i)),
            ),
        }
    }
}

/// The module after the function section: one entry without code is added
/// to the function table for every type index. An index outside the type
/// table is an `InvalidParameter`.
pub open spec fn spec_function_section(payload: Seq<u8>, m: WasmModuleView) -> Result<
    WasmModuleView,
    WasmDecodeError,
> {
    match spec_read_uint(payload, 0) {
        Err(e) => Err(e),
        Ok((n, p)) => match spec_functions(payload, p, n as nat, m, m.functions) {
            Err(e) => Err(e),
            Ok((functions, q)) => spec_done(
                payload,
                q,
                WasmModuleView { functions: functions, ..m },
            ),
        },
    }
}

/// The module after the memory section. The section may declare no memory
/// or one; the memory starts with its minimum size, filled with zeros. More
/// than one memory, and a minimum beyond what a memory may have or what the
/// machine can address, are an `InvalidParameter`.
pub open spec fn spec_memory_section(payload: Seq<u8>, m: WasmModuleView) -> Result<
    WasmModuleView,
    WasmDecodeError,
> {
    match spec_read_uint(payload, 0) {
        Err(e) => Err(e),
        Ok((n, p)) => if n == 0 {
            spec_done(payload, p, m)
        } else if n > 1 || m.memories.len() != 0 {
            Err(WasmDecodeError::InvalidParameter)
        } else {
            match spec_limits(payload, p) {
                Err(e) => Err(e),
                Ok((limit, q)) => if limit.min > WASM_MAX_PAGES || limit.min * WASM_PAGE_SIZE
                    > usize::MAX {
                    Err(WasmDecodeError::InvalidParameter)
                } else {
                    spec_done(
                        payload,
                        q,
                        WasmModuleView {
                            memories: seq![
                                Seq::new((limit.min * WASM_PAGE_SIZE) as nat, |j: int| 0u8),
                            ],
                            limits: seq![limit],
                            ..m
                        },
                    )
                },
            }
        },
    }
}

/// The value of the constant expression at `pos`: `i32.const`, `i64.const`
/// or `global.get` of one of the globals so far, followed by `end`. Another
/// instruction is an `InvalidBytecode`; a global index outside the globals
/// so far is an `InvalidParameter`; a byte other than `end` after the
/// instruction is an `UnexpectedToken`.
pub open spec fn spec_init_expr(bytes: Seq<u8>, pos: int, globals: Seq<WasmGlobal>) -> Result<
    (WasmStackValue, int),
    WasmDecodeError,
> {
    match spec_byte(bytes, pos) {
        Err(e) => Err(e),
        Ok((op, p)) => {
            let value: Result<(WasmStackValue, int), WasmDecodeError> = if op == 0x41 {
                match spec_read_sint(bytes, p) {
                    Err(e) => Err(e),
                    Ok((v, q)) => Ok((WasmStackValue::spec_from_i32(v as i32), q)),
                }
            } else if op == 0x42 {
                match spec_read_sint(bytes, p) {
                    Err(e) => Err(e),
                    Ok((v, q)) => Ok((WasmStackValue::spec_from_i64(v), q)),
                }
            } else if op == 0x23 {
                match spec_index(bytes, p, globals.len()) {
                    Err(e) => Err(e),
                    Ok((i, q)) => Ok((globals[i as int].value, q)),
                }
            } else {
                Err(WasmDecodeError::InvalidBytecode)
            };
            match value {
                Err(e) => Err(e),
                Ok((v, q)) => match spec_byte(bytes, q) {
                    Err(e) => Err(e),
                    Ok((end, r)) => if end != 0x0B {
                        Err(WasmDecodeError::UnexpectedToken)
                    } else {
                        Ok((v, r))
                    },
                },
            }
        },
    }
}

/// The global at `pos`: its type, its mutability (0 or 1; another byte is
/// an `UnexpectedToken`) and its initial value.
pub open spec fn spec_global(bytes: Seq<u8>, pos: int, globals: Seq<WasmGlobal>) -> Result<
    (WasmGlobal, int),
    WasmDecodeError,
> {
    match spec_val_type(bytes, pos) {
        Err(e) => Err(e),
        Ok((val_type, p)) => match spec_byte(bytes, p) {
            Err(e) => Err(e),
            Ok((flag, q)) => if flag > 1 {
                Err(WasmDecodeError::UnexpectedToken)
            } else {
                match spec_init_expr(bytes, q, globals) {
                    Err(e) => Err(e),
                    Ok((value, r)) => Ok(
                        (WasmGlobal { val_type: val_type, is_mutable: flag == 1, value: value }, r),
                    ),
                }
            },
        },
    }
}

/// `acc` followed by the `n` globals from `pos` on.
pub open spec fn spec_globals(bytes: Seq<u8>, pos: int, n: nat, acc: Seq<WasmGlobal>) -> Result<
    (Seq<WasmGlobal>, int),
    WasmDecodeError,
>
    decreases n,
{
    if n == 0 {
        Ok((acc, pos))
    } else {
        match spec_global(bytes, pos, acc) {
            Err(e) => Err(e),
            Ok((g, p)) => spec_globals(bytes, p, (n - 1) as nat, acc.push(g)),
        }
    }
}

/// The module after the global section: its globals are added to the global
/// table.
pub open spec fn spec_global_section(payload: Seq<u8>, m: WasmModuleView) -> Result<
    WasmModuleView,
    WasmDecodeError,
> {
    match spec_read_uint(payload, 0) {
        Err(e) => Err(e),
        Ok((n, p)) => match spec_globals(payload, p, n as nat, m.globals) {
            Err(e) => Err(e),
            Ok((globals, q)) => spec_done(payload, q, WasmModuleView { globals: globals, ..m }),
        },
    }
}

/// What a byte of an export or an import says that the item is.
pub open spec fn spec_export_kind(b: u8) -> Option<WasmExportKind> {
    if b == 0 {
        Some(WasmExportKind::Function)
    } else if b == 1 {
        Some(WasmExportKind::Table)
    } else if b == 2 {
        Some(WasmExportKind::Memory)
    } else if b == 3 {
        Some(WasmExportKind::Global)
    } else {
        None
    }
}

/// The export at `pos`: a name, a kind (another byte than 0 to 3 is an
/// `UnexpectedToken`) and an index.
pub open spec fn spec_export(bytes: Seq<u8>, pos: int) -> Result<
    (WasmExportView, int),
    WasmDecodeError,
> {
    match spec_name(bytes, pos) {
        Err(e) => Err(e),
        Ok((name, p)) => match spec_byte(bytes, p) {
            Err(e) => Err(e),
            Ok((b, q)) => match spec_export_kind(b) {
                None => Err(WasmDecodeError::UnexpectedToken),
                Some(kind) => match spec_read_uint(bytes, q) {
                    Err(e) => Err(e),
                    Ok((index, r)) => if index > usize::MAX {
                        Err(WasmDecodeError::InvalidParameter)
                    } else {
                        Ok((WasmExportView { name: name, kind: kind, index: index as usize }, r))
                    },
                },
            },
        },
    }
}

/// `acc` followed by the `n` exports from `pos` on.
pub open spec fn spec_exports(bytes: Seq<u8>, pos: int, n: nat, acc: Seq<WasmExportView>) -> Result<
    (Seq<WasmExportView>, int),
    WasmDecodeError,
>
    decreases n,
{
    if n == 0 {
        Ok((acc, pos))
    } else {
        match spec_export(bytes, pos) {
            Err(e) => Err(e),
            Ok((x, p)) => spec_exports(bytes, p, (n - 1) as nat, acc.push(x)),
        }
    }
}

/// The module after the export section: its exports are added in their
/// order, so that of two exports with one name the later one is found.
pub open spec fn spec_export_section(payload: Seq<u8>, m: WasmModuleView) -> Result<
    WasmModuleView,
    WasmDecodeError,
> {
    match spec_read_uint(payload, 0) {
        Err(e) => Err(e),
        Ok((n, p)) => match spec_exports(payload, p, n as nat, m.exports) {
            Err(e) => Err(e),
            Ok((exports, q)) => spec_done(payload, q, WasmModuleView { exports: exports, ..m }),
        },
    }
}

/// Decodes the type section.
fn type_section(payload: &[u8], module: &mut WasmModule) -> (r: Result<(), WasmDecodeError>)
    ensures
        match spec_type_section(payload@, old(module)@) {
            Ok(m2) => r is Ok && final(module)@ == m2,
            Err(e) => r == Err::<(), WasmDecodeError>(e),
        },
{
    let mut stream = Leb128Stream::from_slice(payload);
    let n: u64 = stream.read_uint()?;
    let ghost start = stream.position as int;
    let mut i: u64 = 0;
    while i < n
        invariant
            i <= n,
            stream.blob@ == payload@,
            module.functions == old(module).functions,
            module.memories == old(module).memories,
            module.globals == old(module).globals,
            module.exports == old(module).exports,
            spec_read_uint(payload@, 0) == Ok::<(u64, int), WasmDecodeError>((n, start)),
            spec_types(payload@, stream.position as int, (n - i) as nat, module@.types)
                == spec_types(payload@, start, n as nat, old(module)@.types),
        decreases n - i,
    {
        let t: WasmType = read_func_type(&mut stream)?;
        let ghost before = module@.types;
        module.types.push(t);
        assert(module@.types =~= before.push(t@));
        i = i + 1;
    }
    done(&stream)
}

/// Decodes the function section.
fn function_section(payload: &[u8], module: &mut WasmModule) -> (r: Result<(), WasmDecodeError>)
    ensures
        match spec_function_section(payload@, old(module)@) {
            Ok(m2) => r is Ok && final(module)@ == m2,
            Err(e) => r == Err::<(), WasmDecodeError>(e),
        },
{
    let mut stream = Leb128Stream::from_slice(payload);
    let n: u64 = stream.read_uint()?;
    let ghost start = stream.position as int;
    let mut i: u64 = 0;
    while i < n
        invariant
            i <= n,
            stream.blob@ == payload@,
            module.types == old(module).types,
            module.memories == old(module).memories,
            module.globals == old(module).globals,
            module.exports == old(module).exports,
            spec_read_uint(payload@, 0) == Ok::<(u64, int), WasmDecodeError>((n, start)),
            spec_functions(
                payload@,
                stream.position as int,
                (n - i) as nat,
                old(module)@,
                module@.functions,
            ) == spec_functions(payload@, start, n as nat, old(module)@, old(module)@.functions),
        decreases n - i,
    {
        let index: usize = read_index(&mut stream, module.types.len())?;
        let func_type: &WasmType = &module.types[index];
        assert(module@.types[index as int] == func_type@);
        let slot = WasmFunction {
            type_index: index,
            param_types: vstd::slice::slice_to_vec(func_type.params.as_slice()),
            result_types: vstd::slice::slice_to_vec(func_type.results.as_slice()),
            import: None,
            body: None,
        };
        assert(slot@ =~= spec_function_slot(old(module)@, index));
        let ghost before = module@.functions;
        module.functions.push(slot);
        assert(module@.functions =~= before.push(slot@));
        i = i + 1;
    }
    done(&stream)
}

/// Decodes the memory section.
fn memory_section(payload: &[u8], module: &mut WasmModule) -> (r: Result<(), WasmDecodeError>)
    ensures
        match spec_memory_section(payload@, old(module)@) {
            Ok(m2) => r is Ok && final(module)@ == m2,
            Err(e) => r == Err::<(), WasmDecodeError>(e),
        },
{
    let mut stream = Leb128Stream::from_slice(payload);
    let n: u64 = stream.read_uint()?;
    if n == 0 {
        return done(&stream);
    }
    if n > 1 || module.memories.len() != 0 {
        return Err(WasmDecodeError::InvalidParameter);
    }
    let limit: WasmLimit = read_limits(&mut stream)?;
    let memory: WasmMemory = match WasmMemory::new(limit) {
        Some(memory) => memory,
        None => { return Err(WasmDecodeError::InvalidParameter); },
    };
    done(&stream)?;
    module.memories.push(memory);
    assert(module@.memories =~= seq![memory@]);
    assert(module@.limits =~= seq![limit]);
    Ok(())
}

/// Reads the constant expression that gives a global its value.
fn read_init_expr(stream: &mut Leb128Stream, globals: &Vec<WasmGlobal>) -> (r: Result<
    WasmStackValue,
    WasmDecodeError,
>)
    ensures
        final(stream).blob@ == old(stream).blob@,
        match spec_init_expr(old(stream).blob@, old(stream).position as int, globals@) {
            Ok((v, p)) => r == Ok::<WasmStackValue, WasmDecodeError>(v) && final(stream).position
                == p,
            Err(e) => r == Err::<WasmStackValue, WasmDecodeError>(e),
        },
{
    let op: u8 = read_byte(stream)?;
    let value: WasmStackValue = if op == 0x41 {
        let v: i64 = stream.read_sint()?;
        WasmStackValue::from_i32(v as i32)
    } else if op == 0x42 {
        let v: i64 = stream.read_sint()?;
        WasmStackValue::from_i64(v)
    } else if op == 0x23 {
        let i: usize = read_index(stream, globals.len())?;
        globals[i].value
    } else {
        return Err(WasmDecodeError::InvalidBytecode);
    };
    let end: u8 = read_byte(stream)?;
    if end != 0x0B {
        return Err(WasmDecodeError::UnexpectedToken);
    }
    Ok(value)
}

/// Reads a global.
fn read_global(stream: &mut Leb128Stream, globals: &Vec<WasmGlobal>) -> (r: Result<
    WasmGlobal,
    WasmDecodeError,
>)
    ensures
        final(stream).blob@ == old(stream).blob@,
        match spec_global(old(stream).blob@, old(stream).position as int, globals@) {
            Ok((g, p)) => r == Ok::<WasmGlobal, WasmDecodeError>(g) && final(stream).position == p,
            Err(e) => r == Err::<WasmGlobal, WasmDecodeError>(e),
        },
{
    let val_type: WasmValType = read_val_type(stream)?;
    let flag: u8 = read_byte(stream)?;
    if flag > 1 {
        return Err(WasmDecodeError::UnexpectedToken);
    }
    let value: WasmStackValue = read_init_expr(stream, globals)?;
    Ok(WasmGlobal { val_type, is_mutable: flag == 1, value })
}

/// Decodes the global section.
fn global_section(payload: &[u8], module: &mut WasmModule) -> (r: Result<(), WasmDecodeError>)
    ensures
        match spec_global_section(payload@, old(module)@) {
            Ok(m2) => r is Ok && final(module)@ == m2,
            Err(e) => r == Err::<(), WasmDecodeError>(e),
        },
{
    let mut stream = Leb128Stream::from_slice(payload);
    let n: u64 = stream.read_uint()?;
    let ghost start = stream.position as int;
    let mut i: u64 = 0;
    while i < n
        invariant
            i <= n,
            stream.blob@ == payload@,
            module.types == old(module).types,
            module.functions == old(module).functions,
            module.memories == old(module).memories,
            module.exports == old(module).exports,
            spec_read_uint(payload@, 0) == Ok::<(u64, int), WasmDecodeError>((n, start)),
            spec_globals(payload@, stream.position as int, (n - i) as nat, module@.globals)
                == spec_globals(payload@, start, n as nat, old(module)@.globals),
        decreases n - i,
    {
        let g: WasmGlobal = read_global(&mut stream, &module.globals)?;
        module.globals.push(g);
        i = i + 1;
    }
    done(&stream)
}

/// Reads the kind byte of an export.
fn export_kind(b: u8) -> (r: Option<WasmExportKind>)
    ensures
        r == spec_export_kind(b),
{
    if b == 0 {
        Some(WasmExportKind::Function)
    } else if b == 1 {
        Some(WasmExportKind::Table)
    } else if b == 2 {
        Some(WasmExportKind::Memory)
    } else if b == 3 {
        Some(WasmExportKind::Global)
    } else {
        None
    }
}

/// Reads an export.
fn read_export(stream: &mut Leb128Stream) -> (r: Result<WasmExport, WasmDecodeError>)
    ensures
        final(stream).blob@ == old(stream).blob@,
        match spec_export(old(stream).blob@, old(stream).position as int) {
            Ok((x, p)) => r is Ok && r->Ok_0@ == x && final(stream).position == p,
            Err(e) => r == Err::<WasmExport, WasmDecodeError>(e),
        },
{
    let name: String = read_name(stream)?;
    let b: u8 = read_byte(stream)?;
    let kind: WasmExportKind = match export_kind(b) {
        Some(kind) => kind,
        None => { return Err(WasmDecodeError::UnexpectedToken); },
    };
    let index: u64 = stream.read_uint()?;
    if index > usize::MAX as u64 {
        return Err(WasmDecodeError::InvalidParameter);
    }
    Ok(WasmExport { name, kind, index: index as usize })
}

/// Decodes the export section.
fn export_section(payload: &[u8], module: &mut WasmModule) -> (r: Result<(), WasmDecodeError>)
    ensures
        match spec_export_section(payload@, old(module)@) {
            Ok(m2) => r is Ok && final(module)@ == m2,
            Err(e) => r == Err::<(), WasmDecodeError>(e),
        },
{
    let mut stream = Leb128Stream::from_slice(payload);
    let n: u64 = stream.read_uint()?;
    let ghost start = stream.position as int;
    let mut i: u64 = 0;
    while i < n
        invariant
            i <= n,
            stream.blob@ == payload@,
            module.types == old(module).types,
            module.functions == old(module).functions,
            module.memories == old(module).memories,
            module.globals == old(module).globals,
            spec_read_uint(payload@, 0) == Ok::<(u64, int), WasmDecodeError>((n, start)),
            spec_exports(payload@, stream.position as int, (n - i) as nat, module@.exports)
                == spec_exports(payload@, start, n as nat, old(module)@.exports),
        decreases n - i,
    {
        let x: WasmExport = read_export(&mut stream)?;
        let ghost before = module@.exports;
        module.exports.push(x);
        assert(module@.exports =~= before.push(x@));
        i = i + 1;
    }
    done(&stream)
}

/// Whether the linker may answer `r` for an import of these names and this
/// signature.
pub open spec fn linker_may_return<L: Fn(&str, &str, &WasmType) -> Result<usize, WasmDecodeError>>(
    linker: &L,
    module_name: Seq<char>,
    name: Seq<char>,
    func_type: WasmTypeView,
    r: Result<usize, WasmDecodeError>,
) -> bool {
    exists|a: &str, b: &str, t: &WasmType|
        a@ == module_name && b@ == name && t@ == func_type && #[trigger] call_ensures(
            *linker,
            (a, b, t),
            r,
        )
}

/// Whether the linker can be asked about every import.
pub open spec fn linker_accepts_all<L: Fn(&str, &str, &WasmType) -> Result<usize, WasmDecodeError>>(
    linker: &L,
) -> bool {
    forall|a: &str, b: &str, t: &WasmType| call_requires(*linker, (a, b, t))
}

/// Whether the linker is a function of the names and of the signature of
/// the import.
pub open spec fn linker_is_function<L: Fn(&str, &str, &WasmType) -> Result<usize, WasmDecodeError>>(
    linker: &L,
) -> bool {
    forall|
        module_name: Seq<char>,
        name: Seq<char>,
        func_type: WasmTypeView,
        r1: Result<usize, WasmDecodeError>,
        r2: Result<usize, WasmDecodeError>,
    |
        #[trigger] linker_may_return(linker, module_name, name, func_type, r1)
            && #[trigger] linker_may_return(linker, module_name, name, func_type, r2) ==> r1 == r2
}

/// The answers of a linker that is a function.
pub open spec fn linker_model<L: Fn(&str, &str, &WasmType) -> Result<usize, WasmDecodeError>>(
    linker: &L,
) -> WasmLinkerModel {
    |module_name: Seq<char>, name: Seq<char>, func_type: WasmTypeView|
        choose|r: Result<usize, WasmDecodeError>|
            linker_may_return(linker, module_name, name, func_type, r)
}

/// The import at `pos`: two names, a kind and a descriptor. A function
/// import names a signature, is resolved by the linker and gives an entry of
/// the function table; an import of a table, a memory or a global is passed
/// over. Another kind is an `UnexpectedToken`; what the linker refuses fails
/// with the linker's error.
pub open spec fn spec_import(bytes: Seq<u8>, pos: int, m: WasmModuleView, linker: WasmLinkerModel) -> Result<
    (Option<WasmFunctionView>, int),
    WasmDecodeError,
> {
    match spec_name(bytes, pos) {
        Err(e) => Err(e),
        Ok((module_name, p)) => match spec_name(bytes, p) {
            Err(e) => Err(e),
            Ok((name, q)) => match spec_byte(bytes, q) {
                Err(e) => Err(e),
                Ok((kind, r)) => if kind == 0 {
                    match spec_index(bytes, r, m.types.len()) {
                        Err(e) => Err(e),
                        Ok((index, t)) => match linker(module_name, name, m.types[index as int]) {
                            Err(e) => Err(e),
                            Ok(handle) => Ok(
                                (
                                    Some(
                                        WasmFunctionView {
                                            type_index: index,
                                            param_types: m.types[index as int].params,
                                            result_types: m.types[index as int].results,
                                            import: Some(
                                                WasmImportView {
                                                    module_name: module_name,
                                                    name: name,
                                                    handle: handle,
                                                },
                                            ),
                                            body: None,
                                        },
                                    ),
                                    t,
                                ),
                            ),
                        },
                    }
                } else if kind == 1 {
                    match spec_byte(bytes, r) {
                        Err(e) => Err(e),
                        Ok((_, t)) => match spec_limits(bytes, t) {
                            Err(e) => Err(e),
                            Ok((_, u)) => Ok((None, u)),
                        },
                    }
                } else if kind == 2 {
                    match spec_limits(bytes, r) {
                        Err(e) => Err(e),
                        Ok((_, t)) => Ok((None, t)),
                    }
                } else if kind == 3 {
                    match spec_val_type(bytes, r) {
                        Err(e) => Err(e),
                        Ok((_, t)) => match spec_byte(bytes, t) {
                            Err(e) => Err(e),
                            Ok((_, u)) => Ok((None, u)),
                        },
                    }
                } else {
                    Err(WasmDecodeError::UnexpectedToken)
                },
            },
        },
    }
}

/// `acc` followed by the function imports among the `n` imports from `pos`
/// on.
pub open spec fn spec_imports(
    bytes: Seq<u8>,
    pos: int,
    n: nat,
    m: WasmModuleView,
    linker: WasmLinkerModel,
    acc: Seq<WasmFunctionView>,
) -> Result<(Seq<WasmFunctionView>, int), WasmDecodeError>
    decreases n,
{
    if n == 0 {
        Ok((acc, pos))
    } else {
        match spec_import(bytes, pos, m, linker) {
            Err(e) => Err(e),
            Ok((x, p)) => spec_imports(
                bytes,
                p,
                (n - 1) as nat,
                m,
                linker,
                match x {
                    Some(f) => acc.push(f),
                    None => acc,
                },
            ),
        }
    }
}

/// The module after the import section: its function imports are added to
/// the function table.
pub open spec fn spec_import_section(payload: Seq<u8>, m: WasmModuleView, linker: WasmLinkerModel) -> Result<
    WasmModuleView,
    WasmDecodeError,
> {
    match spec_read_uint(payload, 0) {
        Err(e) => Err(e),
        Ok((n, p)) => match spec_imports(payload, p, n as nat, m, linker, m.functions) {
            Err(e) => Err(e),
            Ok((functions, q)) => spec_done(
                payload,
                q,
                WasmModuleView { functions: functions, ..m },
            ),
        },
    }
}

/// Reads an import.
fn read_import<L: Fn(&str, &str, &WasmType) -> Result<usize, WasmDecodeError>>(
    stream: &mut Leb128Stream,
    module: &WasmModule,
    linker: &L,
) -> (r: Result<Option<WasmFunction>, WasmDecodeError>)
    requires
        linker_accepts_all(linker),
    ensures
        final(stream).blob@ == old(stream).blob@,
        linker_is_function(linker) ==> match spec_import(
            old(stream).blob@,
            old(stream).position as int,
            module@,
            linker_model(linker),
        ) {
            Ok((x, p)) => r is Ok && final(stream).position == p && (match x {
                Some(f) => r->Ok_0 is Some && r->Ok_0->Some_0@ == f,
                None => r->Ok_0 is None,
            }),
            Err(e) => r == Err::<Option<WasmFunction>, WasmDecodeError>(e),
        },
{
    let module_name: String = read_name(stream)?;
    let name: String = read_name(stream)?;
    let kind: u8 = read_byte(stream)?;
    if kind == 0 {
        let index: usize = read_index(stream, module.types.len())?;
        let func_type: &WasmType = &module.types[index];
        assert(module@.types[index as int] == func_type@);
        let answer = linker(module_name.as_str(), name.as_str(), func_type);
        proof {
            assert(linker_may_return(linker, module_name@, name@, func_type@, answer));
        }
        let handle: usize = answer?;
        let f = WasmFunction {
            type_index: index,
            param_types: vstd::slice::slice_to_vec(func_type.params.as_slice()),
            result_types: vstd::slice::slice_to_vec(func_type.results.as_slice()),
            import: Some(WasmImport { module_name, name, handle }),
            body: None,
        };
        Ok(Some(f))
    } else if kind == 1 {
        let _ = read_byte(stream)?;
        let _ = read_limits(stream)?;
        Ok(None)
    } else if kind == 2 {
        let _ = read_limits(stream)?;
        Ok(None)
    } else if kind == 3 {
        let _ = read_val_type(stream)?;
        let _ = read_byte(stream)?;
        Ok(None)
    } else {
        Err(WasmDecodeError::UnexpectedToken)
    }
}

/// Decodes the import section.
fn import_section<L: Fn(&str, &str, &WasmType) -> Result<usize, WasmDecodeError>>(
    payload: &[u8],
    module: &mut WasmModule,
    linker: &L,
) -> (r: Result<(), WasmDecodeError>)
    requires
        linker_accepts_all(linker),
    ensures
        linker_is_function(linker) ==> match spec_import_section(
            payload@,
            old(module)@,
            linker_model(linker),
        ) {
            Ok(m2) => r is Ok && final(module)@ == m2,
            Err(e) => r == Err::<(), WasmDecodeError>(e),
        },
{
    let mut stream = Leb128Stream::from_slice(payload);
    let n: u64 = stream.read_uint()?;
    let ghost start = stream.position as int;
    let mut i: u64 = 0;
    while i < n
        invariant
            i <= n,
            linker_accepts_all(linker),
            stream.blob@ == payload@,
            module.types == old(module).types,
            module.memories == old(module).memories,
            module.globals == old(module).globals,
            module.exports == old(module).exports,
            spec_read_uint(payload@, 0) == Ok::<(u64, int), WasmDecodeError>((n, start)),
            linker_is_function(linker) ==> spec_imports(
                payload@,
                stream.position as int,
                (n - i) as nat,
                old(module)@,
                linker_model(linker),
                module@.functions,
            ) == spec_imports(
                payload@,
                start,
                n as nat,
                old(module)@,
                linker_model(linker),
                old(module)@.functions,
            ),
        decreases n - i,
    {
        let ghost before = module@;
        match read_import(&mut stream, module, linker)? {
            Some(f) => {
                module.functions.push(f);
                assert(module@.functions =~= before.functions.push(f@));
            },
            None => {},
        }
        i = i + 1;
    }
    done(&stream)
}

/// The index of the first function from `from` on that is not imported; the
/// length of the table where all are.
pub open spec fn first_defined(functions: Seq<WasmFunctionView>, from: int) -> int
    decreases functions.len() - from,
{
    if 0 <= from < functions.len() && functions[from].import is Some {
        first_defined(functions, from + 1)
    } else {
        from
    }
}

/// `acc` followed by the locals that the `n` groups from `pos` on declare:
/// each group is a count and a type, and stands for that many locals of the
/// type.
pub open spec fn spec_local_groups(bytes: Seq<u8>, pos: int, n: nat, acc: Seq<WasmValType>) -> Result<
    (Seq<WasmValType>, int),
    WasmDecodeError,
>
    decreases n,
{
    if n == 0 {
        Ok((acc, pos))
    } else {
        match spec_read_uint(bytes, pos) {
            Err(e) => Err(e),
            Ok((count, p)) => match spec_val_type(bytes, p) {
                Err(e) => Err(e),
                Ok((t, q)) => spec_local_groups(
                    bytes,
                    q,
                    (n - 1) as nat,
                    acc + Seq::new(count as nat, |i: int| t),
                ),
            },
        }
    }
}

/// The code of the function `func` that the bytes `body` hold: the groups
/// of locals, then the bytecode up to the end, with the block table of the
/// bytecode.
#[verifier::opaque]
pub open spec fn spec_body(body: Seq<u8>, func: WasmFunctionView, m: WasmModuleView) -> Result<
    WasmFunctionBodyView,
    WasmDecodeError,
> {
    match spec_read_uint(body, 0) {
        Err(e) => Err(e),
        Ok((n, p)) => match spec_local_groups(body, p, n as nat, Seq::empty()) {
            Err(e) => Err(e),
            Ok((locals, q)) => {
                let code = body.subrange(q, body.len() as int);
                match spec_analyze(code, 0, m) {
                    Err(e) => Err(e),
                    Ok(info) => Ok(
                        WasmFunctionBodyView {
                            param_types: func.param_types,
                            local_types: locals,
                            result_types: func.result_types,
                            code: code,
                            block_info: info,
                        },
                    ),
                }
            },
        }
    }
}

/// The module after the `n` function bodies from `pos` on have been given
/// to the functions from `index` on. A body for a function that the table
/// does not hold, or that is imported, is an `InvalidParameter`.
pub open spec fn spec_bodies(bytes: Seq<u8>, pos: int, n: nat, index: int, m: WasmModuleView) -> Result<
    (WasmModuleView, int),
    WasmDecodeError,
>
    decreases n,
{
    if n == 0 {
        Ok((m, pos))
    } else {
        match spec_read_uint(bytes, pos) {
            Err(e) => Err(e),
            Ok((size, p)) => match spec_read_bytes(bytes, p, size as int) {
                Err(e) => Err(e),
                Ok((body, q)) => if !(0 <= index < m.functions.len()) || m.functions[index].import
                    is Some {
                    Err(WasmDecodeError::InvalidParameter)
                } else {
                    match spec_body(body, m.functions[index], m) {
                        Err(e) => Err(e),
                        Ok(b) => spec_bodies(
                            bytes,
                            q,
                            (n - 1) as nat,
                            index + 1,
                            WasmModuleView {
                                functions: m.functions.update(
                                    index,
                                    WasmFunctionView { body: Some(b), ..m.functions[index] },
                                ),
                                ..m
                            },
                        ),
                    }
                },
            },
        }
    }
}

/// The module after the code section: the defined functions get their
/// bodies, in the order of the function table.
pub open spec fn spec_code_section(payload: Seq<u8>, m: WasmModuleView) -> Result<
    WasmModuleView,
    WasmDecodeError,
> {
    match spec_read_uint(payload, 0) {
        Err(e) => Err(e),
        Ok((n, p)) => match spec_bodies(payload, p, n as nat, first_defined(m.functions, 0), m) {
            Err(e) => Err(e),
            Ok((m2, q)) => spec_done(payload, q, m2),
        },
    }
}

/// The module after the section `id` with the given payload. The sections
/// 0, 4, 8, 9, 11 and 12 are passed over; an id above 12 is an
/// `UnsupportedSection`.
#[verifier::opaque]
pub open spec fn spec_section(id: u8, payload: Seq<u8>, m: WasmModuleView, linker: WasmLinkerModel) -> Result<
    WasmModuleView,
    WasmDecodeError,
> {
    if id == 1 {
        spec_type_section(payload, m)
    } else if id == 2 {
        spec_import_section(payload, m, linker)
    } else if id == 3 {
        spec_function_section(payload, m)
    } else if id == 5 {
        spec_memory_section(payload, m)
    } else if id == 6 {
        spec_global_section(payload, m)
    } else if id == 7 {
        spec_export_section(payload, m)
    } else if id == 10 {
        spec_code_section(payload, m)
    } else if id <= 12 {
        Ok(m)
    } else {
        Err(WasmDecodeError::UnsupportedSection)
    }
}

/// The module after the sections from `pos` on. Each section is an id, the
/// length of its payload and the payload. Apart from custom sections (id 0),
/// which may stand anywhere, the ids must rise: a section whose id is not
/// above `last`, the id of the section before, is an `UnexpectedToken`.
pub open spec fn spec_sections(blob: Seq<u8>, pos: int, last: u8, m: WasmModuleView, linker: WasmLinkerModel) -> Result<
    WasmModuleView,
    WasmDecodeError,
>
    decreases blob.len() - pos,
{
    if !(0 <= pos < blob.len()) {
        Ok(m)
    } else {
        let id = blob[pos];
        if id > 12 {
            Err(WasmDecodeError::UnsupportedSection)
        } else if id != 0 && id <= last {
            Err(WasmDecodeError::UnexpectedToken)
        } else {
            match spec_read_uint(blob, pos + 1) {
                Err(e) => Err(e),
                Ok((size, p)) => match spec_read_bytes(blob, p, size as int) {
                    Err(e) => Err(e),
                    Ok((payload, q)) => match spec_section(id, payload, m, linker) {
                        Err(e) => Err(e),
                        Ok(m2) => if q <= pos {
                            Err(WasmDecodeError::UnexpectedToken)
                        } else {
                            spec_sections(
                                blob,
                                q,
                                if id == 0 {
                                    last
                                } else {
                                    id
                                },
                                m2,
                                linker,
                            )
                        },
                    },
                },
            }
        }
    }
}

/// The module without anything in it.
pub open spec fn empty_module() -> WasmModuleView {
    WasmModuleView {
        types: Seq::empty(),
        functions: Seq::empty(),
        memories: Seq::empty(),
        limits: Seq::empty(),
        globals: Seq::empty(),
        exports: Seq::empty(),
    }
}

/// The module that `blob` holds. The blob starts with the four bytes
/// `00 61 73 6D`, else it is a `BadExecutable`, and goes on with the version
/// 1 in four bytes, low-order byte first, else it is a `BadVersion`; the
/// sections follow.
pub open spec fn spec_instantiate(blob: Seq<u8>, linker: WasmLinkerModel) -> Result<
    WasmModuleView,
    WasmDecodeError,
> {
    if blob.len() < 4 || le_value(blob, 0, 4) != 0x6D73_6100 {
        Err(WasmDecodeError::BadExecutable)
    } else if blob.len() < 8 || le_value(blob, 4, 4) != 1 {
        Err(WasmDecodeError::BadVersion)
    } else {
        spec_sections(blob, 8, 0, empty_module(), linker)
    }
}

/// Whether `r` is what loading `blob` gives with a linker that answers as
/// `linker` says.
pub open spec fn loads_to(blob: Seq<u8>, linker: WasmLinkerModel, r: Result<WasmModule, WasmDecodeError>) -> bool {
    match spec_instantiate(blob, linker) {
        Ok(m) => r is Ok && r->Ok_0@ == m,
        Err(e) => r == Err::<WasmModule, WasmDecodeError>(e),
    }
}

/// Loading is repeatable: two loads of one blob with one linker fail with
/// the same error, or give modules with the same contents.
pub proof fn lemma_load_twice(
    blob: Seq<u8>,
    linker: WasmLinkerModel,
    first: Result<WasmModule, WasmDecodeError>,
    second: Result<WasmModule, WasmDecodeError>,
)
    requires
        loads_to(blob, linker, first),
        loads_to(blob, linker, second),
    ensures
        first is Ok <==> second is Ok,
        first is Ok ==> first->Ok_0@ == second->Ok_0@,
        first is Err ==> first->Err_0 == second->Err_0,
{
}

/// Appends `count` locals of the type `t`.
fn push_locals(out: &mut Vec<WasmValType>, count: u64, t: WasmValType)
    ensures
        final(out)@ == old(out)@ + Seq::new(count as nat, |i: int| t),
{
    let mut j: u64 = 0;
    while j < count
        invariant
            j <= count,
            out@ =~= old(out)@ + Seq::new(j as nat, |i: int| t),
        decreases count - j,
    {
        out.push(t);
        j = j + 1;
    }
}

/// Decodes the body of the function `func`.
fn read_body(body: &[u8], func: &WasmFunction, module: &WasmModule) -> (r: Result<
    WasmFunctionBody,
    WasmDecodeError,
>)
    ensures
        match spec_body(body@, func@, module@) {
            Ok(b) => r is Ok && r->Ok_0@ == b,
            Err(e) => r == Err::<WasmFunctionBody, WasmDecodeError>(e),
        },
{
    proof {
        reveal(spec_body);
    }
    let mut stream = Leb128Stream::from_slice(body);
    let n: u64 = stream.read_uint()?;
    let ghost start = stream.position as int;
    let mut local_types: Vec<WasmValType> = Vec::new();
    let mut i: u64 = 0;
    while i < n
        invariant
            i <= n,
            stream.blob@ == body@,
            stream.position <= body@.len(),
            spec_read_uint(body@, 0) == Ok::<(u64, int), WasmDecodeError>((n, start)),
            spec_local_groups(body@, stream.position as int, (n - i) as nat, local_types@)
                == spec_local_groups(body@, start, n as nat, Seq::empty()),
        decreases n - i,
    {
        proof {
            reveal(spec_body);
        }
        let count: u64 = stream.read_uint()?;
        let t: WasmValType = read_val_type(&mut stream)?;
        push_locals(&mut local_types, count, t);
        i = i + 1;
    }
    let from: usize = stream.fetch_position();
    let code: &[u8] = vstd::slice::slice_subrange(body, from, body.len());
    let mut code_stream = Leb128Stream::from_slice(code);
    let param_types: Vec<WasmValType> = vstd::slice::slice_to_vec(func.param_types.as_slice());
    let result_types: Vec<WasmValType> = vstd::slice::slice_to_vec(func.result_types.as_slice());
    let block_info: WasmBlockInfo = WasmBlockInfo::analyze(
        &mut code_stream,
        local_types.as_slice(),
        result_types.as_slice(),
        module,
    )?;
    Ok(
        WasmFunctionBody {
            param_types,
            local_types,
            result_types,
            code: vstd::slice::slice_to_vec(code),
            block_info,
        },
    )
}

/// The index of the first function that is not imported.
fn find_first_defined(module: &WasmModule) -> (r: usize)
    ensures
        r == first_defined(module@.functions, 0),
        r <= module@.functions.len(),
{
    let mut i: usize = 0;
    while i < module.functions.len() && module.functions[i].import.is_some()
        invariant
            i <= module.functions@.len(),
            first_defined(module@.functions, 0) == first_defined(module@.functions, i as int),
        decreases module.functions@.len() - i,
    {
        assert(module@.functions[i as int] == module.functions@[i as int]@);
        i = i + 1;
    }
    proof {
        if i < module.functions@.len() {
            assert(module@.functions[i as int] == module.functions@[i as int]@);
        }
    }
    i
}

/// Decodes the code section.
fn code_section(payload: &[u8], module: &mut WasmModule) -> (r: Result<(), WasmDecodeError>)
    ensures
        match spec_code_section(payload@, old(module)@) {
            Ok(m2) => r is Ok && final(module)@ == m2,
            Err(e) => r == Err::<(), WasmDecodeError>(e),
        },
{
    let mut stream = Leb128Stream::from_slice(payload);
    let n: u64 = stream.read_uint()?;
    let ghost start = stream.position as int;
    let first: usize = find_first_defined(module);
    let mut index: usize = first;
    let mut i: u64 = 0;
    while i < n
        invariant
            i <= n,
            stream.blob@ == payload@,
            index <= module.functions@.len(),
            spec_read_uint(payload@, 0) == Ok::<(u64, int), WasmDecodeError>((n, start)),
            first == first_defined(old(module)@.functions, 0),
            spec_bodies(payload@, stream.position as int, (n - i) as nat, index as int, module@)
                == spec_bodies(payload@, start, n as nat, first as int, old(module)@),
        decreases n - i,
    {
        let total: usize = stream.blob.len();
        let size: u64 = stream.read_uint()?;
        if size > usize::MAX as u64 {
            return Err(WasmDecodeError::UnexpectedEof);
        }
        let body: &[u8] = stream.read_bytes(size as usize)?;
        if index >= module.functions.len() {
            return Err(WasmDecodeError::InvalidParameter);
        }
        assert(module@.functions[index as int] == module.functions@[index as int]@);
        if module.functions[index].import.is_some() {
            return Err(WasmDecodeError::InvalidParameter);
        }
        let decoded: WasmFunctionBody = read_body(body, &module.functions[index], module)?;
        let ghost before = module@;
        let ghost b = decoded@;
        module.functions[index].body = Some(Rc::new(decoded));
        assert(module@ =~= WasmModuleView {
            functions: before.functions.update(
                index as int,
                WasmFunctionView { body: Some(b), ..before.functions[index as int] },
            ),
            ..before
        });
        index = index + 1;
        i = i + 1;
    }
    done(&stream)
}

/// The loader of binary modules.
pub struct WasmLoader {}

impl WasmLoader {
    /// Decodes the section `id`.
    fn section<L: Fn(&str, &str, &WasmType) -> Result<usize, WasmDecodeError>>(
        id: u8,
        payload: &[u8],
        module: &mut WasmModule,
        linker: &L,
    ) -> (r: Result<(), WasmDecodeError>)
        requires
            linker_accepts_all(linker),
        ensures
            linker_is_function(linker) ==> match spec_section(
                id,
                payload@,
                old(module)@,
                linker_model(linker),
            ) {
                Ok(m2) => r is Ok && final(module)@ == m2,
                Err(e) => r == Err::<(), WasmDecodeError>(e),
            },
    {
        proof {
            reveal(spec_section);
        }
        if id == 1 {
            type_section(payload, module)
        } else if id == 2 {
            import_section(payload, module, linker)
        } else if id == 3 {
            function_section(payload, module)
        } else if id == 5 {
            memory_section(payload, module)
        } else if id == 6 {
            global_section(payload, module)
        } else if id == 7 {
            export_section(payload, module)
        } else if id == 10 {
            code_section(payload, module)
        } else if id <= 12 {
            Ok(())
        } else {
            Err(WasmDecodeError::UnsupportedSection)
        }
    }

    /// Loads a binary module.
    ///
    /// `linker` is asked about every function import, with the two names and
    /// the signature of the import; it answers with the handle by which the
    /// host will be called for the import, or refuses the import with an
    /// error, which is then the error of the load.
    ///
    /// The module is the one that `spec_instantiate` describes, whenever the
    /// linker is a function of what it is asked: loading one blob twice with
    /// such a linker gives modules with the same contents. A blob without the
    /// magic or without the version is refused whatever the linker is.
    pub fn instantiate<L: Fn(&str, &str, &WasmType) -> Result<usize, WasmDecodeError>>(
        blob: &[u8],
        linker: &L,
    ) -> (r: Result<WasmModule, WasmDecodeError>)
        requires
            linker_accepts_all(linker),
        ensures
            linker_is_function(linker) ==> loads_to(blob@, linker_model(linker), r),
            blob@.len() < 4 || le_value(blob@, 0, 4) != 0x6D73_6100 ==> r == Err::<
                WasmModule,
                WasmDecodeError,
            >(WasmDecodeError::BadExecutable),
            blob@.len() >= 4 && le_value(blob@, 0, 4) == 0x6D73_6100 && (blob@.len() < 8
                || le_value(blob@, 4, 4) != 1) ==> r == Err::<WasmModule, WasmDecodeError>(
                WasmDecodeError::BadVersion,
            ),
    {
        proof {
            reveal_with_fuel(le_value, 5);
        }
        let mut stream = Leb128Stream::from_slice(blob);
        match stream.read_u32_le() {
            Ok(magic) => {
                if magic != 0x6D73_6100 {
                    return Err(WasmDecodeError::BadExecutable);
                }
            },
            Err(_) => { return Err(WasmDecodeError::BadExecutable); },
        }
        match stream.read_u32_le() {
            Ok(version) => {
                if version != 1 {
                    return Err(WasmDecodeError::BadVersion);
                }
            },
            Err(_) => { return Err(WasmDecodeError::BadVersion); },
        }
        let mut module = WasmModule::new();
        let mut last: u8 = 0;
        assert(module@ =~= empty_module());
        let ghost model = linker_model(linker);
        while !stream.is_eof()
            invariant
                linker_accepts_all(linker),
                model == linker_model(linker),
                stream.blob@ == blob@,
                blob@.len() >= 8,
                le_value(blob@, 0, 4) == 0x6D73_6100,
                le_value(blob@, 4, 4) == 1,
                spec_instantiate(blob@, model) == spec_sections(blob@, 8, 0, empty_module(), model),
                linker_is_function(linker) ==> spec_sections(
                    blob@,
                    stream.position as int,
                    last,
                    module@,
                    model,
                ) == spec_sections(blob@, 8, 0, empty_module(), model),
            decreases blob@.len() - stream.position,
        {
            let total: usize = stream.blob.len();
            let id: u8 = stream.read_u8()?;
            if id > 12 {
                return Err(WasmDecodeError::UnsupportedSection);
            }
            if id != 0 && id <= last {
                return Err(WasmDecodeError::UnexpectedToken);
            }
            let size: u64 = stream.read_uint()?;
            if size > usize::MAX as u64 {
                return Err(WasmDecodeError::UnexpectedEof);
            }
            let payload: &[u8] = stream.read_bytes(size as usize)?;
            Self::section(id, payload, &mut module, linker)?;
            if id != 0 {
                last = id;
            }
        }
        Ok(module)
    }
}

} // verus!
