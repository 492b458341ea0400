//! The decoded image of a module: types, functions, memory, globals and
//! exports.

use crate::block::{WasmBlockInfo, WasmBlockInfoView};
use crate::error::WasmRuntimeError;
use crate::memory::WasmMemory;
use crate::stack::WasmStackValue;
use crate::types::{WasmLimit, WasmValType};
use std::rc::Rc;
use vstd::prelude::*;

verus! {

/// A function signature: parameter types and result types, in order.
pub struct WasmType {
    pub params: Vec<WasmValType>,
    pub results: Vec<WasmValType>,
}

/// The contents of a function signature.
#[verifier::ext_equal]
pub struct WasmTypeView {
    pub params: Seq<WasmValType>,
    pub results: Seq<WasmValType>,
}

impl View for WasmType {
    type V = WasmTypeView;

    open spec fn view(&self) -> WasmTypeView {
        WasmTypeView { params: self.params@, results: self.results@ }
    }
}

impl WasmType {
    /// A signature with these parameter types and result types.
    pub fn new(params: Vec<WasmValType>, results: Vec<WasmValType>) -> (r: WasmType)
        ensures
            r@.params == params@,
            r@.results == results@,
    {
        WasmType { params, results }
    }

    /// The parameter types, in order.
    pub fn param_types(&self) -> (r: &[WasmValType])
        ensures
            r@ == self@.params,
    {
        self.params.as_slice()
    }

    /// The result types, in order.
    pub fn result_types(&self) -> (r: &[WasmValType])
        ensures
            r@ == self@.results,
    {
        self.results.as_slice()
    }
}

/// The code of a defined function: its signature, its declared locals, its
/// bytecode and the block table of the bytecode.
pub struct WasmFunctionBody {
    pub param_types: Vec<WasmValType>,
    pub local_types: Vec<WasmValType>,
    pub result_types: Vec<WasmValType>,
    pub code: Vec<u8>,
    pub block_info: WasmBlockInfo,
}

/// The contents of a function body.
#[verifier::ext_equal]
pub struct WasmFunctionBodyView {
    pub param_types: Seq<WasmValType>,
    pub local_types: Seq<WasmValType>,
    pub result_types: Seq<WasmValType>,
    pub code: Seq<u8>,
    pub block_info: WasmBlockInfoView,
}

impl View for WasmFunctionBody {
    type V = WasmFunctionBodyView;

    open spec fn view(&self) -> WasmFunctionBodyView {
        WasmFunctionBodyView {
            param_types: self.param_types@,
            local_types: self.local_types@,
            result_types: self.result_types@,
            code: self.code@,
            block_info: self.block_info@,
        }
    }
}

impl WasmFunctionBody {
    /// The parameter types of the function.
    pub fn param_types(&self) -> (r: &[WasmValType])
        ensures
            r@ == self@.param_types,
    {
        self.param_types.as_slice()
    }

    /// The types of the declared locals.
    pub fn local_types(&self) -> (r: &[WasmValType])
        ensures
            r@ == self@.local_types,
    {
        self.local_types.as_slice()
    }

    /// The result types of the function.
    pub fn result_types(&self) -> (r: &[WasmValType])
        ensures
            r@ == self@.result_types,
    {
        self.result_types.as_slice()
    }

    /// The bytecode.
    pub fn code_block(&self) -> (r: &[u8])
        ensures
            r@ == self@.code,
    {
        self.code.as_slice()
    }

    /// The block table of the bytecode.
    pub fn block_info(&self) -> (r: &WasmBlockInfo)
        ensures
            *r == self.block_info,
    {
        &self.block_info
    }
}

/// Where an imported function comes from, and the host callable that the
/// linker resolved it to.
pub struct WasmImport {
    pub module_name: String,
    pub name: String,
    /// The handle that the linker gave: the host is called with it.
    pub handle: usize,
}

/// The contents of an import record.
#[verifier::ext_equal]
pub struct WasmImportView {
    pub module_name: Seq<char>,
    pub name: Seq<char>,
    pub handle: usize,
}

impl View for WasmImport {
    type V = WasmImportView;

    open spec fn view(&self) -> WasmImportView {
        WasmImportView { module_name: self.module_name@, name: self.name@, handle: self.handle }
    }
}

/// One entry of the function table: an imported function, or a defined one.
/// A defined function has no body until the code section has been read.
pub struct WasmFunction {
    pub type_index: usize,
    pub param_types: Vec<WasmValType>,
    pub result_types: Vec<WasmValType>,
    pub import: Option<WasmImport>,
    pub body: Option<Rc<WasmFunctionBody>>,
}

/// The contents of a function-table entry.
#[verifier::ext_equal]
pub struct WasmFunctionView {
    pub type_index: usize,
    pub param_types: Seq<WasmValType>,
    pub result_types: Seq<WasmValType>,
    pub import: Option<WasmImportView>,
    pub body: Option<WasmFunctionBodyView>,
}

impl View for WasmFunction {
    type V = WasmFunctionView;

    open spec fn view(&self) -> WasmFunctionView {
        WasmFunctionView {
            type_index: self.type_index,
            param_types: self.param_types@,
            result_types: self.result_types@,
            import: match self.import {
                Some(i) => Some(i@),
                None => None,
            },
            body: match self.body {
                Some(b) => Some(b@),
                None => None,
            },
        }
    }
}

impl WasmFunction {
    /// The index of the signature in the type table.
    pub fn type_index(&self) -> (r: usize)
        ensures
            r == self@.type_index,
    {
        self.type_index
    }

    /// The parameter types of the signature.
    pub fn param_types(&self) -> (r: &[WasmValType])
        ensures
            r@ == self@.param_types,
    {
        self.param_types.as_slice()
    }

    /// The result types of the signature.
    pub fn result_types(&self) -> (r: &[WasmValType])
        ensures
            r@ == self@.result_types,
    {
        self.result_types.as_slice()
    }

    /// Whether the function is imported.
    pub fn is_import(&self) -> (r: bool)
        ensures
            r == self@.import.is_some(),
    {
        self.import.is_some()
    }

    /// The code of a defined function.
    pub fn body(&self) -> (r: Option<&WasmFunctionBody>)
        ensures
            r is Some <==> self@.body is Some,
            r matches Some(b) ==> b@ == self@.body.unwrap(),
    {
        match &self.body {
            Some(b) => Some(&**b),
            None => None,
        }
    }
}

/// A global variable. Its mutability is recorded and not enforced.
#[derive(Clone, Copy, Debug, PartialEq, Eq, Structural)]
pub struct WasmGlobal {
    pub val_type: WasmValType,
    pub is_mutable: bool,
    pub value: WasmStackValue,
}

/// What an export names.
#[derive(Clone, Copy, Debug, PartialEq, Eq, Structural)]
pub enum WasmExportKind {
    Function,
    Table,
    Memory,
    Global,
}

/// An export: a name for a function, a table, a memory or a global.
pub struct WasmExport {
    pub name: String,
    pub kind: WasmExportKind,
    pub index: usize,
}

/// The contents of an export.
#[verifier::ext_equal]
pub struct WasmExportView {
    pub name: Seq<char>,
    pub kind: WasmExportKind,
    pub index: usize,
}

impl View for WasmExport {
    type V = WasmExportView;

    open spec fn view(&self) -> WasmExportView {
        WasmExportView { name: self.name@, kind: self.kind, index: self.index }
    }
}

/// A loaded module. Imported functions come first in the function table,
/// defined functions after them. The loader builds it; afterwards only the
/// memory contents and the globals change.
pub struct WasmModule {
    pub types: Vec<WasmType>,
    pub functions: Vec<WasmFunction>,
    pub memories: Vec<WasmMemory>,
    pub globals: Vec<WasmGlobal>,
    pub exports: Vec<WasmExport>,
}

/// The contents of a module.
#[verifier::ext_equal]
pub struct WasmModuleView {
    pub types: Seq<WasmTypeView>,
    pub functions: Seq<WasmFunctionView>,
    pub memories: Seq<Seq<u8>>,
    pub limits: Seq<WasmLimit>,
    pub globals: Seq<WasmGlobal>,
    pub exports: Seq<WasmExportView>,
}

impl View for WasmModule {
    type V = WasmModuleView;

    open spec fn view(&self) -> WasmModuleView {
        WasmModuleView {
            types: self.types@.map_values(|t: WasmType| t@),
            functions: self.functions@.map_values(|f: WasmFunction| f@),
            memories: self.memories@.map_values(|m: WasmMemory| m@),
            limits: self.memories@.map_values(|m: WasmMemory| m.limit),
            globals: self.globals@,
            exports: self.exports@.map_values(|e: WasmExport| e@),
        }
    }
}

impl WasmModuleView {
    /// The module with the contents of its first memory replaced.
    pub open spec fn with_memory(self, data: Seq<u8>) -> WasmModuleView {
        WasmModuleView { memories: self.memories.update(0, data), ..self }
    }

    /// The module with the value of one global replaced.
    pub open spec fn with_global(self, index: int, value: WasmStackValue) -> WasmModuleView {
        WasmModuleView {
            globals: self.globals.update(
                index,
                WasmGlobal { value: value, ..self.globals[index] },
            ),
            ..self
        }
    }

    /// The index of the function that `name` exports: that of the last
    /// function export of that name.
    pub open spec fn export_func(self, name: Seq<char>) -> Option<usize> {
        Self::last_func_export(self.exports, name, self.exports.len())
    }

    /// The index of the last function export named `name` among the first `n`
    /// exports.
    pub open spec fn last_func_export(exports: Seq<WasmExportView>, name: Seq<char>, n: nat) -> Option<
        usize,
    >
        decreases n,
    {
        if n == 0 {
            None
        } else {
            let e = exports[n - 1];
            if e.kind == WasmExportKind::Function && e.name == name {
                Some(e.index)
            } else {
                Self::last_func_export(exports, name, (n - 1) as nat)
            }
        }
    }
}

impl WasmModule {
    /// A module with nothing in it.
    pub fn new() -> (r: WasmModule)
        ensures
            r@.types.len() == 0,
            r@.functions.len() == 0,
            r@.memories.len() == 0,
            r@.globals.len() == 0,
            r@.exports.len() == 0,
    {
        WasmModule {
            types: Vec::new(),
            functions: Vec::new(),
            memories: Vec::new(),
            globals: Vec::new(),
            exports: Vec::new(),
        }
    }

    /// The type table.
    pub fn types(&self) -> (r: &[WasmType])
        ensures
            r@ == self.types@,
    {
        self.types.as_slice()
    }

    /// The function table: imports first, then defined functions.
    pub fn functions(&self) -> (r: &[WasmFunction])
        ensures
            r@ == self.functions@,
    {
        self.functions.as_slice()
    }

    /// The `index`-th linear memory.
    pub fn memory(&self, index: usize) -> (r: Option<&WasmMemory>)
        ensures
            r is Some <==> index < self@.memories.len(),
            r matches Some(m) ==> *m == self.memories@[index as int] && m@
                == self@.memories[index as int],
    {
        if index < self.memories.len() {
            Some(&self.memories[index])
        } else {
            None
        }
    }

    /// The global table.
    pub fn globals(&self) -> (r: &[WasmGlobal])
        ensures
            r@ == self@.globals,
    {
        self.globals.as_slice()
    }

    /// The index of the function that `name` exports. Where several function
    /// exports share the name, the last one counts. A name that exports no
    /// function is an invalid parameter.
    pub fn func(&self, name: &str) -> (r: Result<usize, WasmRuntimeError>)
        ensures
            r == (match self@.export_func(name@) {
                Some(i) => Ok::<usize, WasmRuntimeError>(i),
                None => Err(WasmRuntimeError::InvalidParameter),
            }),
    {
        let wanted: String = name.to_owned();
        let mut i: usize = self.exports.len();
        while i > 0
            invariant
                i <= self.exports@.len(),
                wanted@ == name@,
                self@.export_func(name@) == WasmModuleView::last_func_export(
                    self@.exports,
                    name@,
                    i as nat,
                ),
            decreases i,
        {
            i = i - 1;
            let e: &WasmExport = &self.exports[i];
            let same_kind: bool = match e.kind {
                WasmExportKind::Function => true,
                _ => false,
            };
            if same_kind && e.name == wanted {
                return Ok(e.index);
            }
        }
        Err(WasmRuntimeError::InvalidParameter)
    }
}

} // verus!
