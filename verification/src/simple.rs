//! Relocation in its reduced form, for a module that needs neither a new
//! heap base nor a patched initialising routine: the memory base is set,
//! the stack pointer and the data segments are shifted. A symbol that is
//! not there, or is no constant, is passed over and reported.

use crate::error::RelocateError;
use crate::layout::{heap_base_of, shifted, with_segments_moved};
use crate::model::{global_names, global_value_at, symbol_table, ModuleModel};
use crate::relocate::{heap_base, move_segments};
use crate::symbols::{MEMORY_BASE, STACK_POINTER};
use crate::utils::{get_global_mut, get_named_globals_map};
use crate::wasm::{emit, encoded, model_of, module_globals, parse, parsed, well_linked};
use vstd::prelude::*;

verus! {

/// How one step of the reduced relocation ended.
#[derive(Clone, Copy, Debug, PartialEq, Eq, Structural)]
pub enum Step {
    /// The symbol was found and written.
    Patched,
    /// The module has no global of that name: nothing was written.
    Missing,
    /// The global of that name is imported, or is no 32-bit integer
    /// constant: nothing was written.
    NotConstant,
}

/// A module after the reduced relocation, with the report of its two
/// steps on symbols.
#[derive(Debug)]
pub struct Relocated {
    /// The relocated module in binary form.
    pub wasm: Vec<u8>,
    /// What became of the memory base.
    pub memory_base: Step,
    /// What became of the stack pointer.
    pub stack_pointer: Step,
}

/// How the step on `symbol` ends in a module.
pub open spec fn step_on(model: ModuleModel, symbol: Seq<char>) -> Step {
    let table = symbol_table(global_names(model.globals));
    if !table.contains_key(symbol) {
        Step::Missing
    } else if global_value_at(model.globals, table[symbol]) is None {
        Step::NotConstant
    } else {
        Step::Patched
    }
}

/// The module with its memory base set to `offset` itself, where it has
/// one to set.
pub open spec fn with_memory_base_set(model: ModuleModel, offset: i32) -> ModuleModel {
    let table = symbol_table(global_names(model.globals));
    if step_on(model, MEMORY_BASE@) == Step::Patched {
        model.with_global(table[MEMORY_BASE@] as int, offset)
    } else {
        model
    }
}

/// The module with its stack pointer shifted by `offset`, where it has
/// one to shift.
pub open spec fn with_stack_pointer_moved(model: ModuleModel, offset: i32) -> ModuleModel {
    let table = symbol_table(global_names(model.globals));
    if step_on(model, STACK_POINTER@) == Step::Patched {
        model.with_global(
            table[STACK_POINTER@] as int,
            shifted(model.globals[table[STACK_POINTER@] as int].value.unwrap(), offset),
        )
    } else {
        model
    }
}

/// The module after the reduced relocation: the memory base is set, then
/// the stack pointer is shifted, then the data segments are.
pub open spec fn simply_relocated(model: ModuleModel, offset: i32) -> ModuleModel {
    with_segments_moved(
        with_stack_pointer_moved(with_memory_base_set(model, offset), offset),
        offset,
    )
}

/// Relocates a parsed module in place, in the reduced form, and reports
/// what became of the memory base and of the stack pointer, in this
/// order.
pub fn relocate_module(module: &mut walrus::Module, offset: i32) -> (steps: (Step, Step))
    ensures
        model_of(*final(module)) == simply_relocated(model_of(*old(module)), offset),
        steps.0 == step_on(model_of(*old(module)), MEMORY_BASE@),
        steps.1 == step_on(with_memory_base_set(model_of(*old(module)), offset), STACK_POINTER@),
        well_linked(*final(module)) == well_linked(*old(module)),
{
    let globals = get_named_globals_map(module);
    let has_memory_base = globals.contains_key(MEMORY_BASE);
    let has_stack_pointer = globals.contains_key(STACK_POINTER);
    let memory_base = match get_global_mut(module, &globals, MEMORY_BASE) {
        Some(value) => {
            *value = offset;
            Step::Patched
        },
        None => if has_memory_base {
            Step::NotConstant
        } else {
            Step::Missing
        },
    };
    proof {
        assert(global_names(module_globals(*module)) =~= global_names(
            module_globals(*old(module)),
        ));
    }
    let stack_pointer = match get_global_mut(module, &globals, STACK_POINTER) {
        Some(value) => {
            *value = value.wrapping_add(offset);
            Step::Patched
        },
        None => if has_stack_pointer {
            Step::NotConstant
        } else {
            Step::Missing
        },
    };
    move_segments(module, offset);
    (memory_base, stack_pointer)
}

/// Whether `outcome` is what the reduced relocation of the bytes `wasm`
/// has to give: an error where the bytes are no module, and else the
/// report of the two steps with the binary form of a module that holds
/// what the reduced relocation makes of the tables read from `wasm`.
pub open spec fn is_simple_relocation_of(
    wasm: Seq<u8>,
    offset: i32,
    outcome: Result<Relocated, RelocateError>,
) -> bool {
    match parsed(wasm) {
        None => outcome == Err::<Relocated, RelocateError>(RelocateError::Malformed),
        Some(model) => outcome is Ok && outcome.unwrap().memory_base == step_on(
            model,
            MEMORY_BASE@,
        ) && outcome.unwrap().stack_pointer == step_on(
            with_memory_base_set(model, offset),
            STACK_POINTER@,
        ) && exists|module: walrus::Module|
            model_of(module) == simply_relocated(model, offset) && well_linked(module)
                && #[trigger] encoded(module) == outcome.unwrap().wasm@,
    }
}

/// Relocates the module `wasm` by `offset` in the reduced form. Only
/// bytes that are no module make it fail.
pub fn relocate(wasm: &[u8], offset: i32) -> (outcome: Result<Relocated, RelocateError>)
    ensures
        is_simple_relocation_of(wasm@, offset, outcome),
{
    let mut module = match parse(wasm) {
        Some(module) => module,
        None => {
            return Err(RelocateError::Malformed);
        },
    };
    let (memory_base, stack_pointer) = relocate_module(&mut module, offset);
    let wasm = emit(module);
    Ok(Relocated { wasm, memory_base, stack_pointer })
}

/// The heap base of the module `wasm`: the value of the global that it
/// exports as such.
pub fn get_heap_base(wasm: &[u8]) -> (outcome: Result<i32, RelocateError>)
    ensures
        outcome == match parsed(wasm@) {
            Some(model) => heap_base_of(model),
            None => Err(RelocateError::Malformed),
        },
{
    match parse(wasm) {
        Some(module) => heap_base(&module),
        None => Err(RelocateError::Malformed),
    }
}

} // verus!
