//! What holds of every relocation.

use crate::error::{Mismatch, RelocateError};
use crate::layout::{
    exported_heap_base, heap_base_of, in_window, init_memory_body, lemma_surveyed_describes,
    memory_base_of, moved_segment, relocated, shifted, stack_pointer_of, surveyed, swept_global,
    INIT_MEMORY_LENGTH,
};
use crate::model::{function_names, global_names, global_value_at, ModuleModel};
use vstd::prelude::*;

verus! {

/// Shifting twice is shifting once by the sum of the two offsets.
pub proof fn lemma_shifts_compose(address: i32, first: i32, second: i32)
    ensures
        shifted(shifted(address, first), second) == shifted(address, shifted(first, second)),
{
}

/// Where the sum fits in 32 bits, shifting is adding.
pub proof fn law_shift_is_sum(address: i32, offset: i32)
    requires
        i32::MIN <= address + offset <= i32::MAX,
    ensures
        shifted(address, offset) == address + offset,
{
}

/// Relocation keeps the shape of a module: no entry comes or goes, every
/// name stays where it is, a global that held a constant holds one, the
/// exports are untouched, and so is every function but the routine that
/// initialises the memory.
pub proof fn lemma_shape_is_kept(model: ModuleModel, offset: i32, new_heap_base: i32)
    requires
        model.fits(),
        relocated(model, offset, new_heap_base) is Ok,
    ensures
        ({
            let after = relocated(model, offset, new_heap_base).unwrap();
            &&& after.fits()
            &&& after.globals.len() == model.globals.len()
            &&& after.segments.len() == model.segments.len()
            &&& after.functions.len() == model.functions.len()
            &&& after.exports == model.exports
            &&& global_names(after.globals) == global_names(model.globals)
            &&& function_names(after.functions) == function_names(model.functions)
            &&& forall|i: int|
                0 <= i < model.globals.len() ==> (#[trigger] after.globals[i].value is Some)
                    == (model.globals[i].value is Some)
            &&& forall|i: int|
                0 <= i < model.functions.len() && i != surveyed(model).unwrap().routine
                    ==> #[trigger] after.functions[i] == model.functions[i]
        }),
{
    lemma_surveyed_describes(model);
    let after = relocated(model, offset, new_heap_base).unwrap();
    assert(global_names(after.globals) =~= global_names(model.globals));
    assert(function_names(after.functions) =~= function_names(model.functions));
}

/// The value of each global after relocation: the heap base is the new
/// heap base; the stack pointer and the memory base are their old values
/// shifted; every other global is as the sweep left it.
pub proof fn lemma_global_after(model: ModuleModel, offset: i32, new_heap_base: i32, index: int)
    requires
        model.fits(),
        relocated(model, offset, new_heap_base) is Ok,
        0 <= index < model.globals.len(),
    ensures
        ({
            let layout = surveyed(model).unwrap();
            let after = relocated(model, offset, new_heap_base).unwrap();
            &&& after.globals[index].name == model.globals[index].name
            &&& after.globals[index].value == if index == layout.heap_base_global {
                Some(new_heap_base)
            } else if index == layout.stack_pointer_global {
                Some(shifted(layout.stack_pointer, offset))
            } else if index == layout.memory_base_global {
                Some(shifted(layout.memory_base, offset))
            } else {
                swept_global(
                    model.globals[index],
                    layout.stack_pointer,
                    layout.heap_base,
                    offset,
                ).value
            }
        }),
{
    lemma_surveyed_describes(model);
}

/// A global whose value lay between the stack pointer and the heap base,
/// both included, holds that value shifted by the offset; a global whose
/// value lay outside, or that held no 32-bit integer constant, is
/// unchanged. Two globals are named apart from this: the heap base, which
/// ends at the new heap base, and the memory base, which is shifted
/// wherever it lay.
pub proof fn law_range_invariant(model: ModuleModel, offset: i32, new_heap_base: i32, index: int)
    requires
        model.fits(),
        relocated(model, offset, new_heap_base) is Ok,
        0 <= index < model.globals.len(),
    ensures
        ({
            let layout = surveyed(model).unwrap();
            let before = model.globals[index];
            let after = relocated(model, offset, new_heap_base).unwrap().globals[index];
            let in_range = before.value is Some && in_window(
                before.value.unwrap(),
                layout.stack_pointer,
                layout.heap_base,
            );
            &&& in_range && index != layout.heap_base_global ==> after == before.with_value(
                shifted(before.value.unwrap(), offset),
            )
            &&& !in_range && index != layout.memory_base_global ==> after == before
        }),
{
    lemma_surveyed_describes(model);
    lemma_global_after(model, offset, new_heap_base, index);
}

/// Every data segment that was loaded at a constant address is loaded at
/// that address shifted by the offset and holds the bytes that it held;
/// every other segment, a passive one among them, is as it was, byte for
/// byte.
pub proof fn law_segment_invariant(model: ModuleModel, offset: i32, new_heap_base: i32, index: int)
    requires
        relocated(model, offset, new_heap_base) is Ok,
        0 <= index < model.segments.len(),
    ensures
        ({
            let after = relocated(model, offset, new_heap_base).unwrap();
            &&& after.segments.len() == model.segments.len()
            &&& after.segments[index].bytes == model.segments[index].bytes
            &&& after.segments[index].address == match model.segments[index].address {
                Some(address) => Some(shifted(address, offset)),
                None => None,
            }
            &&& model.segments[index].address is None ==> after.segments[index]
                == model.segments[index]
        }),
{
}

/// After relocation the global that is exported as the heap base holds the
/// new heap base, whatever the offset was.
pub proof fn law_heap_base_is_absolute(model: ModuleModel, offset: i32, new_heap_base: i32)
    requires
        model.fits(),
        relocated(model, offset, new_heap_base) is Ok,
    ensures
        ({
            let layout = surveyed(model).unwrap();
            let after = relocated(model, offset, new_heap_base).unwrap();
            global_value_at(after.globals, layout.heap_base_global) == Some(new_heap_base)
        }),
{
    lemma_surveyed_describes(model);
    lemma_global_after(model, offset, new_heap_base, surveyed(model).unwrap().heap_base_global as int);
}

/// Asking a relocated module for its heap base gives the heap base that
/// it was relocated to.
pub proof fn law_heap_base_round_trip(model: ModuleModel, offset: i32, new_heap_base: i32)
    requires
        model.fits(),
        relocated(model, offset, new_heap_base) is Ok,
    ensures
        heap_base_of(relocated(model, offset, new_heap_base).unwrap()) == Ok::<i32, RelocateError>(new_heap_base),
{
    lemma_shape_is_kept(model, offset, new_heap_base);
    law_heap_base_is_absolute(model, offset, new_heap_base);
}

/// A module whose three layout symbols resolve, but whose initialising
/// routine has not exactly four instructions or does not start with a
/// 32-bit integer constant, is refused for its shape, whatever the offset
/// and the new heap base are.
pub proof fn law_shape_rejection(model: ModuleModel, offset: i32, new_heap_base: i32)
    requires
        exported_heap_base(model) is Some,
        stack_pointer_of(model) is Some,
        memory_base_of(model) is Some,
        init_memory_body(model) is Some,
        init_memory_body(model).unwrap().len() != INIT_MEMORY_LENGTH || init_memory_body(
            model,
        ).unwrap()[0] is None,
    ensures
        relocated(model, offset, new_heap_base) == Err::<ModuleModel, RelocateError>(
            RelocateError::ShapeMismatch(
                if init_memory_body(model).unwrap().len() != INIT_MEMORY_LENGTH {
                    Mismatch::InstructionCount
                } else {
                    Mismatch::FirstNotConstant
                },
            ),
        ),
{
}

/// A module whose three layout symbols resolve and whose initialising
/// routine has its four instructions, but starts with a constant below
/// the stack pointer, or at or above the heap base, is refused for its
/// shape.
pub proof fn law_bounds_rejection(model: ModuleModel, offset: i32, new_heap_base: i32)
    requires
        exported_heap_base(model) is Some,
        stack_pointer_of(model) is Some,
        memory_base_of(model) is Some,
        init_memory_body(model) is Some,
        init_memory_body(model).unwrap().len() == INIT_MEMORY_LENGTH,
        init_memory_body(model).unwrap()[0] is Some,
        !(stack_pointer_of(model).unwrap() <= init_memory_body(model).unwrap()[0].unwrap()
            < exported_heap_base(model).unwrap()),
    ensures
        relocated(model, offset, new_heap_base) == Err::<ModuleModel, RelocateError>(
            RelocateError::ShapeMismatch(Mismatch::OutOfBounds),
        ),
{
}

/// A module that can be relocated has its stack pointer below its heap
/// base.
pub proof fn law_stack_below_heap(model: ModuleModel)
    requires
        surveyed(model) is Ok,
    ensures
        surveyed(model).unwrap().stack_pointer < surveyed(model).unwrap().heap_base,
{
}

/// Relocating a module reads the same positions whether or not it was
/// relocated before: the layout of a relocated module names the globals
/// and the routine that its layout named before, with the stack
/// pointer and the routine's constant shifted and the heap base where the
/// relocation put it.
pub proof fn lemma_layout_after(model: ModuleModel, offset: i32, new_heap_base: i32)
    requires
        model.fits(),
        relocated(model, offset, new_heap_base) is Ok,
        surveyed(relocated(model, offset, new_heap_base).unwrap()) is Ok,
    ensures
        ({
            let before = surveyed(model).unwrap();
            let after = surveyed(relocated(model, offset, new_heap_base).unwrap()).unwrap();
            &&& after.heap_base_global == before.heap_base_global
            &&& after.stack_pointer_global == before.stack_pointer_global
            &&& after.memory_base_global == before.memory_base_global
            &&& after.routine == before.routine
            &&& after.heap_base == new_heap_base
            &&& after.stack_pointer == shifted(before.stack_pointer, offset)
            &&& after.constant == shifted(before.constant, offset)
            &&& before.memory_base_global != before.heap_base_global ==> after.memory_base
                == shifted(before.memory_base, offset)
        }),
{
    let once = relocated(model, offset, new_heap_base).unwrap();
    lemma_shape_is_kept(model, offset, new_heap_base);
    lemma_surveyed_describes(model);
    lemma_surveyed_describes(once);
    let before = surveyed(model).unwrap();
    lemma_global_after(model, offset, new_heap_base, before.heap_base_global as int);
    lemma_global_after(model, offset, new_heap_base, before.stack_pointer_global as int);
    lemma_global_after(model, offset, new_heap_base, before.memory_base_global as int);
}

/// Two relocations in a row shift by the sum of their offsets: the stack
/// pointer, the constant of the initialising routine and every data
/// segment end where one relocation by both offsets together would have
/// put them, every global that the second relocation finds between the
/// stack pointer and the heap base is shifted by the second offset, and
/// the heap base is the one that the second relocation was given, whatever
/// the first was given.
pub proof fn law_shifts_compose(
    model: ModuleModel,
    first: i32,
    first_heap_base: i32,
    second: i32,
    second_heap_base: i32,
)
    requires
        model.fits(),
        relocated(model, first, first_heap_base) is Ok,
        relocated(
            relocated(model, first, first_heap_base).unwrap(),
            second,
            second_heap_base,
        ) is Ok,
    ensures
        ({
            let before = surveyed(model).unwrap();
            let once = relocated(model, first, first_heap_base).unwrap();
            let between = surveyed(once).unwrap();
            let twice = relocated(once, second, second_heap_base).unwrap();
            let both = shifted(first, second);
            &&& global_value_at(twice.globals, before.stack_pointer_global) == Some(
                shifted(before.stack_pointer, both),
            )
            &&& twice.constant_at(before.routine, 0) == Some(shifted(before.constant, both))
            &&& twice.segments.len() == model.segments.len()
            &&& forall|i: int|
                0 <= i < model.segments.len() ==> #[trigger] twice.segments[i] == moved_segment(
                    model.segments[i],
                    both,
                )
            &&& forall|i: int|
                0 <= i < once.globals.len() && i != before.heap_base_global
                    && once.globals[i].value is Some && in_window(
                    once.globals[i].value.unwrap(),
                    between.stack_pointer,
                    between.heap_base,
                ) ==> #[trigger] twice.globals[i] == once.globals[i].with_value(
                    shifted(once.globals[i].value.unwrap(), second),
                )
            &&& heap_base_of(twice) == Ok::<i32, RelocateError>(second_heap_base)
        }),
{
    let before = surveyed(model).unwrap();
    let once = relocated(model, first, first_heap_base).unwrap();
    let between = surveyed(once).unwrap();
    let twice = relocated(once, second, second_heap_base).unwrap();
    let both = shifted(first, second);
    lemma_shape_is_kept(model, first, first_heap_base);
    lemma_layout_after(model, first, first_heap_base);
    lemma_surveyed_describes(model);
    lemma_surveyed_describes(once);
    lemma_shifts_compose(before.stack_pointer, first, second);
    lemma_shifts_compose(before.constant, first, second);
    lemma_global_after(once, second, second_heap_base, before.stack_pointer_global as int);
    law_heap_base_round_trip(once, second, second_heap_base);
    assert forall|i: int| 0 <= i < model.segments.len() implies #[trigger] twice.segments[i]
        == moved_segment(model.segments[i], both) by {
        if model.segments[i].address is Some {
            lemma_shifts_compose(model.segments[i].address.unwrap(), first, second);
        }
    }
    assert forall|i: int|
        0 <= i < once.globals.len() && i != before.heap_base_global && once.globals[i].value is Some
            && in_window(
            once.globals[i].value.unwrap(),
            between.stack_pointer,
            between.heap_base,
        ) implies #[trigger] twice.globals[i] == once.globals[i].with_value(
        shifted(once.globals[i].value.unwrap(), second),
    ) by {
        law_range_invariant(once, second, second_heap_base, i);
    }
}

} // verus!
