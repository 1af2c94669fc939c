//! Relocation in full: the routine that initialises the memory, the globals
//! that hold addresses, the data segments and the three layout symbols.

use crate::error::{Mismatch, RelocateError, Symbol};
use crate::layout::{
    heap_base_of, moved_segment, moved_segments, relocated, shifted, surveyed, swept,
    swept_global, with_globals_swept, with_routine_moved, with_segments_moved,
    with_symbols_rewritten, Layout, INIT_MEMORY_LENGTH,
};
use crate::model::{function_names, global_value_at, lemma_first_named_unique};
use crate::symbols::{HEAP_BASE, MEMORY_BASE, STACK_POINTER, WASM_INIT_MEMORY};
use crate::utils::{get_exports_map, get_global, get_global_from_exports, get_named_globals_map};
use crate::wasm::{
    constant_slot, emit, encoded, export_global, function_body, function_by_name, global_count,
    global_slot, global_value, model_of, module_exports, module_functions, module_globals,
    module_segments, parse, parsed, segment_count, segment_slot, well_linked,
};
use vstd::prelude::*;

verus! {

/// Reads the layout of a module and checks all that relocation asks of
/// it, without writing anything.
pub fn survey(module: &walrus::Module) -> (outcome: Result<Layout, RelocateError>)
    ensures
        outcome == surveyed(model_of(*module)),
        outcome matches Ok(layout) ==> layout.describes(model_of(*module)),
{
    let globals = get_named_globals_map(module);
    let exports = get_exports_map(module);
    let heap_base_global = match exports.get(HEAP_BASE) {
        Some(export) => export_global(module, *export),
        None => None,
    };
    let heap_base = match heap_base_global {
        Some(global) => global_value(module, global),
        None => None,
    };
    let (heap_base, heap_base_global) = match (heap_base, heap_base_global) {
        (Some(value), Some(global)) => (value, global),
        _ => {
            return Err(
                if exports.contains_key(HEAP_BASE) {
                    RelocateError::WrongKind(Symbol::HeapBase)
                } else {
                    RelocateError::MissingSymbol(Symbol::HeapBase)
                },
            );
        },
    };
    let (stack_pointer, stack_pointer_global) = match (
        get_global(module, &globals, STACK_POINTER),
        globals.get(STACK_POINTER),
    ) {
        (Some(value), Some(global)) => (value, *global),
        _ => {
            return Err(
                if globals.contains_key(STACK_POINTER) {
                    RelocateError::WrongKind(Symbol::StackPointer)
                } else {
                    RelocateError::MissingSymbol(Symbol::StackPointer)
                },
            );
        },
    };
    let (memory_base, memory_base_global) = match (
        get_global(module, &globals, MEMORY_BASE),
        globals.get(MEMORY_BASE),
    ) {
        (Some(value), Some(global)) => (value, *global),
        _ => {
            return Err(
                if globals.contains_key(MEMORY_BASE) {
                    RelocateError::WrongKind(Symbol::MemoryBase)
                } else {
                    RelocateError::MissingSymbol(Symbol::MemoryBase)
                },
            );
        },
    };
    let found = function_by_name(module, WASM_INIT_MEMORY);
    proof {
        lemma_first_named_unique(
            function_names(module_functions(*module)),
            WASM_INIT_MEMORY@,
            found,
        );
    }
    let routine = match found {
        Some(routine) => routine,
        None => {
            return Err(RelocateError::MissingSymbol(Symbol::InitMemory));
        },
    };
    let body = match function_body(module, routine) {
        Some(body) => body,
        None => {
            return Err(RelocateError::WrongKind(Symbol::InitMemory));
        },
    };
    if body.len() != INIT_MEMORY_LENGTH {
        return Err(RelocateError::ShapeMismatch(Mismatch::InstructionCount));
    }
    let constant = match body[0] {
        Some(constant) => constant,
        None => {
            return Err(RelocateError::ShapeMismatch(Mismatch::FirstNotConstant));
        },
    };
    if !(stack_pointer <= constant && constant < heap_base) {
        return Err(RelocateError::ShapeMismatch(Mismatch::OutOfBounds));
    }
    Ok(
        Layout {
            heap_base,
            heap_base_global,
            stack_pointer,
            stack_pointer_global,
            memory_base,
            memory_base_global,
            routine,
            constant,
        },
    )
}

/// Shifts the first constant of the routine that initialises the memory.
pub fn move_routine(module: &mut walrus::Module, layout: &Layout, offset: i32)
    requires
        layout.describes(model_of(*old(module))),
    ensures
        model_of(*final(module)) == with_routine_moved(model_of(*old(module)), *layout, offset),
        well_linked(*final(module)) == well_linked(*old(module)),
{
    match constant_slot(module, layout.routine, 0) {
        Some(constant) => {
            *constant = constant.wrapping_add(offset);
        },
        None => {},
    }
}

/// Shifts every global that holds a 32-bit integer constant between the
/// stack pointer and the heap base of `layout`, both included. A global
/// of another kind, or with a value outside, is left as it is.
pub fn sweep_globals(module: &mut walrus::Module, layout: &Layout, offset: i32)
    ensures
        model_of(*final(module)) == with_globals_swept(model_of(*old(module)), *layout, offset),
        well_linked(*final(module)) == well_linked(*old(module)),
{
    let count = global_count(module);
    let mut index: usize = 0;
    while index < count
        invariant
            index <= count,
            count == module_globals(*old(module)).len(),
            count == module_globals(*module).len(),
            module_exports(*module) == module_exports(*old(module)),
            module_segments(*module) == module_segments(*old(module)),
            module_functions(*module) == module_functions(*old(module)),
            well_linked(*module) == well_linked(*old(module)),
            forall|i: int|
                0 <= i < index ==> module_globals(*module)[i] == swept_global(
                    module_globals(*old(module))[i],
                    layout.stack_pointer,
                    layout.heap_base,
                    offset,
                ),
            forall|i: int|
                index <= i < count ==> module_globals(*module)[i] == module_globals(
                    *old(module),
                )[i],
        decreases count - index,
    {
        match global_slot(module, index) {
            Some(value) => {
                let address = *value;
                if layout.stack_pointer <= address && address <= layout.heap_base {
                    *value = address.wrapping_add(offset);
                }
            },
            None => {},
        }
        index += 1;
    }
    proof {
        assert(module_globals(*module) =~= swept(
            module_globals(*old(module)),
            layout.stack_pointer,
            layout.heap_base,
            offset,
        ));
    }
}

/// Shifts the address of every active data segment that is loaded at a
/// 32-bit integer constant. A passive segment, or one whose address is
/// computed, is left as it is.
pub fn move_segments(module: &mut walrus::Module, offset: i32)
    ensures
        model_of(*final(module)) == with_segments_moved(model_of(*old(module)), offset),
        well_linked(*final(module)) == well_linked(*old(module)),
{
    let count = segment_count(module);
    let mut index: usize = 0;
    while index < count
        invariant
            index <= count,
            count == module_segments(*old(module)).len(),
            count == module_segments(*module).len(),
            module_globals(*module) == module_globals(*old(module)),
            module_exports(*module) == module_exports(*old(module)),
            module_functions(*module) == module_functions(*old(module)),
            well_linked(*module) == well_linked(*old(module)),
            forall|i: int|
                0 <= i < index ==> module_segments(*module)[i] == moved_segment(
                    module_segments(*old(module))[i],
                    offset,
                ),
            forall|i: int|
                index <= i < count ==> module_segments(*module)[i] == module_segments(
                    *old(module),
                )[i],
        decreases count - index,
    {
        match segment_slot(module, index) {
            Some(position) => {
                *position = position.wrapping_add(offset);
            },
            None => {},
        }
        index += 1;
    }
    proof {
        assert(module_segments(*module) =~= moved_segments(module_segments(*old(module)), offset));
    }
}

/// Writes the three layout symbols, in this order: the memory base and the
/// stack pointer become what `layout` holds for them, shifted; then the
/// heap base becomes `new_heap_base`, whatever the offset is.
pub fn rewrite_symbols(
    module: &mut walrus::Module,
    layout: &Layout,
    offset: i32,
    new_heap_base: i32,
)
    requires
        global_value_at(module_globals(*old(module)), layout.memory_base_global) is Some,
        global_value_at(module_globals(*old(module)), layout.stack_pointer_global) is Some,
        global_value_at(module_globals(*old(module)), layout.heap_base_global) is Some,
    ensures
        model_of(*final(module)) == with_symbols_rewritten(
            model_of(*old(module)),
            *layout,
            offset,
            new_heap_base,
        ),
        well_linked(*final(module)) == well_linked(*old(module)),
{
    match global_slot(module, layout.memory_base_global) {
        Some(memory_base) => {
            *memory_base = layout.memory_base.wrapping_add(offset);
        },
        None => {},
    }
    match global_slot(module, layout.stack_pointer_global) {
        Some(stack_pointer) => {
            *stack_pointer = layout.stack_pointer.wrapping_add(offset);
        },
        None => {},
    }
    match global_slot(module, layout.heap_base_global) {
        Some(heap_base) => {
            *heap_base = new_heap_base;
        },
        None => {},
    }
}

/// Relocates a parsed module in place. Where the module cannot be
/// relocated, the error says why and the module is untouched.
pub fn relocate_module(module: &mut walrus::Module, offset: i32, new_heap_base: i32) -> (outcome:
    Result<(), RelocateError>)
    ensures
        match relocated(model_of(*old(module)), offset, new_heap_base) {
            Ok(target) => outcome is Ok && model_of(*final(module)) == target && well_linked(
                *final(module),
            ) == well_linked(*old(module)),
            Err(error) => outcome == Err::<(), RelocateError>(error) && *final(module) == *old(
                module,
            ),
        },
{
    let layout = match survey(module) {
        Ok(layout) => layout,
        Err(error) => {
            return Err(error);
        },
    };
    move_routine(module, &layout, offset);
    sweep_globals(module, &layout, offset);
    move_segments(module, offset);
    rewrite_symbols(module, &layout, offset, new_heap_base);
    Ok(())
}

/// Whether `outcome` is what relocating the bytes `wasm` has to give: the
/// error where the bytes are no module or the module cannot be relocated,
/// and else the binary form of a module that holds what relocation makes
/// of the tables read from `wasm`.
pub open spec fn is_relocation_of(
    wasm: Seq<u8>,
    offset: i32,
    new_heap_base: i32,
    outcome: Result<Vec<u8>, RelocateError>,
) -> bool {
    match parsed(wasm) {
        None => outcome == Err::<Vec<u8>, RelocateError>(RelocateError::Malformed),
        Some(model) => match relocated(model, offset, new_heap_base) {
            Err(error) => outcome == Err::<Vec<u8>, RelocateError>(error),
            Ok(target) => outcome is Ok && exists|module: walrus::Module|
                model_of(module) == target && well_linked(module) && #[trigger] encoded(module)
                    == outcome.unwrap()@,
        },
    }
}

/// Relocates the module `wasm` by `offset` and lets its heap start at
/// `new_heap_base`. No bytes come back unless every step was taken.
pub fn relocate(wasm: &[u8], offset: i32, new_heap_base: i32) -> (outcome: Result<
    Vec<u8>,
    RelocateError,
>)
    ensures
        is_relocation_of(wasm@, offset, new_heap_base, outcome),
{
    let mut module = match parse(wasm) {
        Some(module) => module,
        None => {
            return Err(RelocateError::Malformed);
        },
    };
    match relocate_module(&mut module, offset, new_heap_base) {
        Ok(()) => Ok(emit(module)),
        Err(error) => Err(error),
    }
}

/// The heap base of a parsed module: the value of the global that it
/// exports as such.
pub fn heap_base(module: &walrus::Module) -> (outcome: Result<i32, RelocateError>)
    ensures
        outcome == heap_base_of(model_of(*module)),
{
    let exports = get_exports_map(module);
    match get_global_from_exports(module, &exports, HEAP_BASE) {
        Some(value) => Ok(value),
        None => Err(
            if exports.contains_key(HEAP_BASE) {
                RelocateError::WrongKind(Symbol::HeapBase)
            } else {
                RelocateError::MissingSymbol(Symbol::HeapBase)
            },
        ),
    }
}

/// The heap base of the module `wasm`: where a caller may place the next
/// module's region.
pub fn get_heap_base(wasm: &[u8]) -> (outcome: Result<i32, RelocateError>)
    ensures
        outcome == match parsed(wasm@) {
            Some(model) => heap_base_of(model),
            None => Err(RelocateError::Malformed),
        },
{
    match parse(wasm) {
        Some(module) => heap_base(&module),
        None => Err(RelocateError::Malformed),
    }
}

} // verus!
