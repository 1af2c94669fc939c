//! The module as `walrus` holds it, and the few operations of `walrus` that
//! relocation needs.
//!
//! Nothing in this file is proved: each function states what the `walrus`
//! operation in its body does, and the rest of the crate is verified against
//! these statements.

use crate::model::{
    exported_global_at, function_names, global_value_at, is_first_named, segment_address_at,
    ExportEntry, FunctionEntry, GlobalEntry, ModuleModel, SegmentEntry,
};
use vstd::prelude::*;

verus! {

/// `walrus::Module`, a parsed module. Its fields stay hidden: what is
/// known of a module is what the functions below say.
#[verifier::external_type_specification]
#[verifier::external_body]
pub struct ExModule(walrus::Module);

/// The globals that the module holds, in the order in which
/// `module.globals.iter()` yields them. A global whose kind is
/// `GlobalKind::Local(ConstExpr::Value(Value::I32(v)))` has the value
/// `Some(v)`, every other the value `None`.
pub uninterp spec fn module_globals(module: walrus::Module) -> Seq<GlobalEntry>;

/// The exports that the module holds, in the order in which
/// `module.exports.iter()` yields them. Where the item is
/// `ExportItem::Global(id)` and `module.globals.iter()` yields the global
/// with that id, `global` is the position at which it does so.
pub uninterp spec fn module_exports(module: walrus::Module) -> Seq<ExportEntry>;

/// The data segments that the module holds, in the order in which
/// `module.data.iter()` yields them. The address is `Some(v)` for the kind
/// `DataKind::Active` with the offset `ConstExpr::Value(Value::I32(v))`
/// and `None` for every other; the bytes are the field `value`.
pub uninterp spec fn module_segments(module: walrus::Module) -> Seq<SegmentEntry>;

/// The functions that the module holds, in the order in which
/// `module.funcs.iter()` yields them. The body of a `FunctionKind::Local`
/// is the instruction sequence of its entry block, with `Some(v)` for an
/// `Instr::Const` of `Value::I32(v)` and `None` for any other instruction.
pub uninterp spec fn module_functions(module: walrus::Module) -> Seq<FunctionEntry>;

/// Whether every id inside the module leads to an entry that the module
/// still holds, which is what `Module::emit_wasm` relies on.
pub uninterp spec fn well_linked(module: walrus::Module) -> bool;

/// The tables of the module that `Module::from_buffer` reads from `wasm`;
/// `None` where it reports an error.
pub uninterp spec fn parsed(wasm: Seq<u8>) -> Option<ModuleModel>;

/// The bytes that `Module::emit_wasm` writes for the module.
pub uninterp spec fn encoded(module: walrus::Module) -> Seq<u8>;

/// The four tables of a module.
pub open spec fn model_of(module: walrus::Module) -> ModuleModel {
    ModuleModel {
        globals: module_globals(module),
        exports: module_exports(module),
        segments: module_segments(module),
        functions: module_functions(module),
    }
}

/// Calls `Module::from_buffer`. The tables of the module that comes back
/// depend on the bytes alone, and nothing in a module that was just read
/// dangles.
#[verifier::external_body]
pub(crate) fn parse(wasm: &[u8]) -> (module: Option<walrus::Module>)
    ensures
        match module {
            Some(m) => parsed(wasm@) == Some(model_of(m)) && well_linked(m),
            None => parsed(wasm@) is None,
        },
{
    walrus::Module::from_buffer(wasm).ok()
}

/// Calls `Module::emit_wasm`, which panics on an id that leads nowhere and
/// else returns the module's binary form.
#[verifier::external_body]
pub(crate) fn emit(module: walrus::Module) -> (wasm: Vec<u8>)
    requires
        well_linked(module),
    ensures
        wasm@ == encoded(module),
{
    let mut module = module;
    module.emit_wasm()
}

/// Counts what `ModuleGlobals::iter` yields.
#[verifier::external_body]
pub(crate) fn global_count(module: &walrus::Module) -> (count: usize)
    ensures
        count == module_globals(*module).len(),
{
    module.globals.iter().count()
}

/// Reads the field `name` of the global that `ModuleGlobals::iter` yields
/// at `index`.
#[verifier::external_body]
pub(crate) fn global_name(module: &walrus::Module, index: usize) -> (name: Option<String>)
    ensures
        match name {
            Some(text) => index < module_globals(*module).len() && module_globals(
                *module,
            )[index as int].name == Some(text@),
            None => index < module_globals(*module).len() ==> module_globals(
                *module,
            )[index as int].name is None,
        },
{
    module.globals.iter().nth(index).and_then(|global| global.name.clone())
}

/// Reads the field `kind` of the global that `ModuleGlobals::iter` yields
/// at `index`, and hands out the constant of a local 32-bit integer
/// global.
#[verifier::external_body]
pub(crate) fn global_value(module: &walrus::Module, index: usize) -> (value: Option<i32>)
    ensures
        value == global_value_at(module_globals(*module), index),
{
    match module.globals.iter().nth(index).map(|global| &global.kind) {
        Some(walrus::GlobalKind::Local(walrus::ConstExpr::Value(walrus::ir::Value::I32(value)))) => {
            Some(*value)
        },
        _ => None,
    }
}

/// Borrows, through `ModuleGlobals::get_mut`, the constant of the global
/// that `ModuleGlobals::iter` yields at `index`. What the caller writes
/// through the borrow is the global's new value; nothing else in the
/// module changes.
#[verifier::external_body]
pub(crate) fn global_slot<'a>(module: &'a mut walrus::Module, index: usize) -> (slot: Option<
    &'a mut i32,
>)
    ensures
        match slot {
            Some(cell) => global_value_at(module_globals(*old(module)), index) == Some(*cell)
                && model_of(*final(module)) == model_of(*old(module)).with_global(
                index as int,
                *final(cell),
            ) && well_linked(*final(module)) == well_linked(*old(module)),
            None => global_value_at(module_globals(*old(module)), index) is None && *final(module)
                == *old(module),
        },
{
    let id = module.globals.iter().nth(index).map(|global| global.id())?;
    match &mut module.globals.get_mut(id).kind {
        walrus::GlobalKind::Local(walrus::ConstExpr::Value(walrus::ir::Value::I32(value))) => {
            Some(value)
        },
        _ => None,
    }
}

/// Counts what `ModuleExports::iter` yields.
#[verifier::external_body]
pub(crate) fn export_count(module: &walrus::Module) -> (count: usize)
    ensures
        count == module_exports(*module).len(),
{
    module.exports.iter().count()
}

/// Reads the field `name` of the export that `ModuleExports::iter` yields
/// at `index`.
#[verifier::external_body]
pub(crate) fn export_name(module: &walrus::Module, index: usize) -> (name: Option<String>)
    ensures
        match name {
            Some(text) => index < module_exports(*module).len() && module_exports(
                *module,
            )[index as int].name == text@,
            None => index >= module_exports(*module).len(),
        },
{
    module.exports.iter().nth(index).map(|export| export.name.clone())
}

/// Reads the field `item` of the export that `ModuleExports::iter` yields
/// at `index`. For an exported global it hands out the position at which
/// `ModuleGlobals::iter` yields the global with that id.
#[verifier::external_body]
pub(crate) fn export_global(module: &walrus::Module, index: usize) -> (global: Option<usize>)
    ensures
        global == exported_global_at(module_exports(*module), index),
{
    match module.exports.iter().nth(index).map(|export| export.item) {
        Some(walrus::ExportItem::Global(id)) => {
            module.globals.iter().position(|global| global.id() == id)
        },
        _ => None,
    }
}

/// Counts what `ModuleData::iter` yields.
#[verifier::external_body]
pub(crate) fn segment_count(module: &walrus::Module) -> (count: usize)
    ensures
        count == module_segments(*module).len(),
{
    module.data.iter().count()
}

/// Borrows, through `ModuleData::get_mut`, the constant offset of the
/// active data segment that `ModuleData::iter` yields at `index`. What the
/// caller writes through the borrow is the segment's new offset; nothing
/// else in the module changes.
#[verifier::external_body]
pub(crate) fn segment_slot<'a>(module: &'a mut walrus::Module, index: usize) -> (slot: Option<
    &'a mut i32,
>)
    ensures
        match slot {
            Some(cell) => segment_address_at(module_segments(*old(module)), index) == Some(*cell)
                && model_of(*final(module)) == model_of(*old(module)).with_segment(
                index as int,
                *final(cell),
            ) && well_linked(*final(module)) == well_linked(*old(module)),
            None => segment_address_at(module_segments(*old(module)), index) is None
                && *final(module) == *old(module),
        },
{
    let id = module.data.iter().nth(index).map(|data| data.id())?;
    match &mut module.data.get_mut(id).kind {
        walrus::DataKind::Active {
            offset: walrus::ConstExpr::Value(walrus::ir::Value::I32(value)),
            ..
        } => Some(value),
        _ => None,
    }
}

/// Calls `ModuleFunctions::by_name`, which returns the id of the first
/// function with that name, and hands out the position at which
/// `ModuleFunctions::iter` yields the function with that id.
#[verifier::external_body]
pub(crate) fn function_by_name(module: &walrus::Module, name: &str) -> (found: Option<usize>)
    ensures
        is_first_named(function_names(module_functions(*module)), name@, found),
{
    let id = module.funcs.by_name(name)?;
    module.funcs.iter().position(|function| function.id() == id)
}

/// Reads the entry block of the local function that
/// `ModuleFunctions::iter` yields at `index`, and hands out its
/// instructions: the constant of each 32-bit integer constant, `None` for
/// every other instruction.
#[verifier::external_body]
pub(crate) fn function_body(module: &walrus::Module, index: usize) -> (body: Option<
    Vec<Option<i32>>,
>)
    ensures
        match body {
            Some(instructions) => index < module_functions(*module).len() && module_functions(
                *module,
            )[index as int].body == Some(instructions@),
            None => index < module_functions(*module).len() ==> module_functions(
                *module,
            )[index as int].body is None,
        },
{
    let function = module.funcs.iter().nth(index)?;
    let walrus::FunctionKind::Local(local) = &function.kind else {
        return None;
    };
    let instructions = local.block(local.entry_block()).instrs.iter();
    Some(instructions.map(|(instruction, _)| match instruction {
        walrus::ir::Instr::Const(walrus::ir::Const { value: walrus::ir::Value::I32(value) }) => {
            Some(*value)
        },
        _ => None,
    }).collect())
}

/// Borrows, through `ModuleFunctions::get_mut` and
/// `LocalFunction::block_mut`, the constant of the instruction `at` in the
/// entry block of the local function that `ModuleFunctions::iter` yields at
/// `function`. What the caller writes through the borrow is the new
/// constant; nothing else in the module changes.
#[verifier::external_body]
pub(crate) fn constant_slot<'a>(
    module: &'a mut walrus::Module,
    function: usize,
    at: usize,
) -> (slot: Option<&'a mut i32>)
    ensures
        match slot {
            Some(cell) => model_of(*old(module)).constant_at(function, at) == Some(*cell)
                && model_of(*final(module)) == model_of(*old(module)).with_constant(
                function as int,
                at as int,
                *final(cell),
            ) && well_linked(*final(module)) == well_linked(*old(module)),
            None => model_of(*old(module)).constant_at(function, at) is None && *final(module)
                == *old(module),
        },
{
    let id = module.funcs.iter().nth(function).map(|function| function.id())?;
    let walrus::FunctionKind::Local(local) = &mut module.funcs.get_mut(id).kind else {
        return None;
    };
    let entry = local.entry_block();
    match local.block_mut(entry).instrs.get_mut(at) {
        Some((walrus::ir::Instr::Const(constant), _)) => match &mut constant.value {
            walrus::ir::Value::I32(value) => Some(value),
            _ => None,
        },
        _ => None,
    }
}

} // verus!
