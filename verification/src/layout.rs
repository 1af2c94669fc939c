//! The rules of relocation, stated over the model of a module.

use crate::error::{Mismatch, RelocateError, Symbol};
use crate::model::{
    export_names, exported_global, exported_global_value, first_named, function_names, global_names, global_value_at,
    lemma_first_named, named_global_value, symbol_table, GlobalEntry, ModuleModel, SegmentEntry,
};
use crate::symbols::{HEAP_BASE, MEMORY_BASE, STACK_POINTER, WASM_INIT_MEMORY};
use vstd::prelude::*;

verus! {

/// The number of instructions in the routine that initialises the memory,
/// as the toolchain writes it.
pub const INIT_MEMORY_LENGTH: usize = 4;

/// The address `offset` bytes after `address`. Addresses are 32 bits wide,
/// so the sum is taken modulo 2^32, as the module's own arithmetic does.
pub open spec fn shifted(address: i32, offset: i32) -> i32 {
    if address + offset > i32::MAX {
        (address + offset - 0x1_0000_0000) as i32
    } else if address + offset < i32::MIN {
        (address + offset + 0x1_0000_0000) as i32
    } else {
        (address + offset) as i32
    }
}

/// Whether a value lies between the stack pointer and the heap base, both
/// included: such a value is taken for an address of the region that
/// moves.
pub open spec fn in_window(value: i32, stack_pointer: i32, heap_base: i32) -> bool {
    stack_pointer <= value <= heap_base
}

/// Whether the first constant of the routine that initialises the memory
/// is where it has to be: at or above the stack pointer and below the heap
/// base.
pub open spec fn in_bounds(constant: i32, stack_pointer: i32, heap_base: i32) -> bool {
    stack_pointer <= constant < heap_base
}

/// What relocation reads from a module before it writes anything.
#[derive(Clone, Copy, Debug, PartialEq, Eq, Structural)]
pub struct Layout {
    /// The value of the global that is exported as the heap base.
    pub heap_base: i32,
    /// The position of that global.
    pub heap_base_global: usize,
    /// The value of the global named as the stack pointer.
    pub stack_pointer: i32,
    /// The position of that global.
    pub stack_pointer_global: usize,
    /// The value of the global named as the memory base.
    pub memory_base: i32,
    /// The position of that global.
    pub memory_base_global: usize,
    /// The position of the routine that initialises the memory.
    pub routine: usize,
    /// The constant that the first instruction of that routine pushes.
    pub constant: i32,
}

impl Layout {
    /// Whether the module has, at the positions that the layout names, the
    /// values that the layout holds, with the first constant of the routine
    /// between the stack pointer and the heap base.
    pub open spec fn describes(self, model: ModuleModel) -> bool {
        &&& global_value_at(model.globals, self.heap_base_global) == Some(self.heap_base)
        &&& global_value_at(model.globals, self.stack_pointer_global) == Some(self.stack_pointer)
        &&& global_value_at(model.globals, self.memory_base_global) == Some(self.memory_base)
        &&& model.constant_at(self.routine, 0) == Some(self.constant)
        &&& in_bounds(self.constant, self.stack_pointer, self.heap_base)
    }
}

/// The error for a name that resolved to no 32-bit integer constant:
/// the name is missing where `present` is false, and of the wrong kind
/// where it is there.
pub open spec fn unresolved(symbol: Symbol, present: bool) -> RelocateError {
    if present {
        RelocateError::WrongKind(symbol)
    } else {
        RelocateError::MissingSymbol(symbol)
    }
}

/// The value of the global named as the stack pointer, if the module has
/// one that holds a 32-bit integer constant.
pub open spec fn stack_pointer_of(model: ModuleModel) -> Option<i32> {
    named_global_value(model.globals, symbol_table(global_names(model.globals)), STACK_POINTER@)
}

/// The value of the global named as the memory base, if the module has
/// one that holds a 32-bit integer constant.
pub open spec fn memory_base_of(model: ModuleModel) -> Option<i32> {
    named_global_value(model.globals, symbol_table(global_names(model.globals)), MEMORY_BASE@)
}

/// The value of the global exported as the heap base, if the module has
/// one that holds a 32-bit integer constant.
pub open spec fn exported_heap_base(model: ModuleModel) -> Option<i32> {
    exported_global_value(model, symbol_table(export_names(model.exports)), HEAP_BASE@)
}

/// The body of the routine that initialises the memory: of the first
/// function of that name, if there is one and the module defines it.
pub open spec fn init_memory_body(model: ModuleModel) -> Option<Seq<Option<i32>>> {
    match first_named(function_names(model.functions), WASM_INIT_MEMORY@) {
        Some(routine) => model.functions[routine as int].body,
        None => None,
    }
}

/// The layout of a module, or the first thing that is wrong with it. The
/// checks come in this order: the heap base, the stack pointer, the memory
/// base, then the routine that initialises the memory: that it is there,
/// that the module defines it, that it has four instructions, that the
/// first pushes a 32-bit integer constant, and that this constant lies
/// between the stack pointer and the heap base.
pub open spec fn surveyed(model: ModuleModel) -> Result<Layout, RelocateError> {
    let exports = symbol_table(export_names(model.exports));
    let globals = symbol_table(global_names(model.globals));
    let routine = first_named(function_names(model.functions), WASM_INIT_MEMORY@);
    if exported_heap_base(model) is None {
        Err(unresolved(Symbol::HeapBase, exports.contains_key(HEAP_BASE@)))
    } else if stack_pointer_of(model) is None {
        Err(unresolved(Symbol::StackPointer, globals.contains_key(STACK_POINTER@)))
    } else if memory_base_of(model) is None {
        Err(unresolved(Symbol::MemoryBase, globals.contains_key(MEMORY_BASE@)))
    } else if routine is None {
        Err(RelocateError::MissingSymbol(Symbol::InitMemory))
    } else {
        match init_memory_body(model) {
            None => Err(RelocateError::WrongKind(Symbol::InitMemory)),
            Some(body) => if body.len() != INIT_MEMORY_LENGTH {
                Err(RelocateError::ShapeMismatch(Mismatch::InstructionCount))
            } else if body[0] is None {
                Err(RelocateError::ShapeMismatch(Mismatch::FirstNotConstant))
            } else if !in_bounds(
                body[0].unwrap(),
                stack_pointer_of(model).unwrap(),
                exported_heap_base(model).unwrap(),
            ) {
                Err(RelocateError::ShapeMismatch(Mismatch::OutOfBounds))
            } else {
                Ok(
                    Layout {
                        heap_base: exported_heap_base(model).unwrap(),
                        heap_base_global: exported_global(
                            model.exports,
                            exports,
                            HEAP_BASE@,
                        ).unwrap(),
                        stack_pointer: stack_pointer_of(model).unwrap(),
                        stack_pointer_global: globals[STACK_POINTER@],
                        memory_base: memory_base_of(model).unwrap(),
                        memory_base_global: globals[MEMORY_BASE@],
                        routine: routine.unwrap(),
                        constant: body[0].unwrap(),
                    },
                )
            },
        }
    }
}

/// The layout that a module is found to have describes it.
pub proof fn lemma_surveyed_describes(model: ModuleModel)
    requires
        model.functions.len() <= usize::MAX,
        surveyed(model) is Ok,
    ensures
        surveyed(model).unwrap().describes(model),
{
    lemma_first_named(function_names(model.functions), WASM_INIT_MEMORY@);
}

/// A global after the sweep: one that holds an address of the window holds
/// it shifted, every other is as it was.
pub open spec fn swept_global(
    global: GlobalEntry,
    stack_pointer: i32,
    heap_base: i32,
    offset: i32,
) -> GlobalEntry {
    match global.value {
        Some(value) => if in_window(value, stack_pointer, heap_base) {
            global.with_value(shifted(value, offset))
        } else {
            global
        },
        None => global,
    }
}

/// The globals after the sweep.
pub open spec fn swept(
    globals: Seq<GlobalEntry>,
    stack_pointer: i32,
    heap_base: i32,
    offset: i32,
) -> Seq<GlobalEntry> {
    Seq::new(globals.len(), |i: int| swept_global(globals[i], stack_pointer, heap_base, offset))
}

/// A data segment after relocation: a constant address is shifted, and a
/// segment without one is as it was. The bytes stay in either case.
pub open spec fn moved_segment(segment: SegmentEntry, offset: i32) -> SegmentEntry {
    match segment.address {
        Some(address) => segment.with_address(shifted(address, offset)),
        None => segment,
    }
}

/// The data segments after relocation.
pub open spec fn moved_segments(segments: Seq<SegmentEntry>, offset: i32) -> Seq<SegmentEntry> {
    Seq::new(segments.len(), |i: int| moved_segment(segments[i], offset))
}

/// The module with the first constant of its initialising routine shifted.
pub open spec fn with_routine_moved(model: ModuleModel, layout: Layout, offset: i32) -> ModuleModel {
    model.with_constant(layout.routine as int, 0, shifted(layout.constant, offset))
}

/// The module with its globals swept.
pub open spec fn with_globals_swept(model: ModuleModel, layout: Layout, offset: i32) -> ModuleModel {
    ModuleModel {
        globals: swept(model.globals, layout.stack_pointer, layout.heap_base, offset),
        exports: model.exports,
        segments: model.segments,
        functions: model.functions,
    }
}

/// The module with its data segments moved.
pub open spec fn with_segments_moved(model: ModuleModel, offset: i32) -> ModuleModel {
    ModuleModel {
        globals: model.globals,
        exports: model.exports,
        segments: moved_segments(model.segments, offset),
        functions: model.functions,
    }
}

/// The module with its three layout symbols rewritten, in this order: the
/// memory base and the stack pointer to their old values shifted, then the
/// heap base to `new_heap_base`.
pub open spec fn with_symbols_rewritten(
    model: ModuleModel,
    layout: Layout,
    offset: i32,
    new_heap_base: i32,
) -> ModuleModel {
    model.with_global(
        layout.memory_base_global as int,
        shifted(layout.memory_base, offset),
    ).with_global(
        layout.stack_pointer_global as int,
        shifted(layout.stack_pointer, offset),
    ).with_global(layout.heap_base_global as int, new_heap_base)
}

/// The module after relocation by `offset` with the heap starting at
/// `new_heap_base`, or the reason why it is not relocated. The four steps
/// all go by the layout that the module had before the first of them.
pub open spec fn relocated(model: ModuleModel, offset: i32, new_heap_base: i32) -> Result<
    ModuleModel,
    RelocateError,
> {
    match surveyed(model) {
        Err(error) => Err(error),
        Ok(layout) => Ok(
            with_symbols_rewritten(
                with_segments_moved(
                    with_globals_swept(with_routine_moved(model, layout, offset), layout, offset),
                    offset,
                ),
                layout,
                offset,
                new_heap_base,
            ),
        ),
    }
}

/// The heap base of a module: the value of the global that it exports
/// under that name.
pub open spec fn heap_base_of(model: ModuleModel) -> Result<i32, RelocateError> {
    match exported_heap_base(model) {
        Some(value) => Ok(value),
        None => Err(
            unresolved(
                Symbol::HeapBase,
                symbol_table(export_names(model.exports)).contains_key(HEAP_BASE@),
            ),
        ),
    }
}

} // verus!
