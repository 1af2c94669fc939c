//! Finding the globals and exports of a module by name.

use crate::model::{
    export_names, exported_global, exported_global_value, global_names, last_named,
    named_global_value, segment_address_at, symbol_table,
};
use crate::wasm::{
    export_count, export_global, export_name, global_count, global_name, global_slot,
    global_value, model_of, module_exports, module_globals, module_segments, segment_slot,
    well_linked,
};
use vstd::hash_map::StringHashMap;
use vstd::prelude::*;

verus! {

/// Reading one more position extends the table by that position's name, if
/// it has one.
pub proof fn lemma_symbol_table_step(names: Seq<Option<Seq<char>>>, index: int)
    requires
        0 <= index < names.len(),
    ensures
        symbol_table(names.take(index + 1)) == match names[index] {
            Some(name) => symbol_table(names.take(index)).insert(name, index as usize),
            None => symbol_table(names.take(index)),
        },
{
    let longer = names.take(index + 1);
    let shorter = names.take(index);
    assert(longer.drop_last() =~= shorter);
    assert(longer.last() == names[index]);
    let stepped = match names[index] {
        Some(name) => symbol_table(shorter).insert(name, index as usize),
        None => symbol_table(shorter),
    };
    assert forall|symbol: Seq<char>|
        last_named(longer, symbol) == (if names[index] == Some(symbol) {
            Some(index as usize)
        } else {
            last_named(shorter, symbol)
        }) by {}
    assert(symbol_table(longer) =~= stepped);
}

/// The table of the module's named globals: each name leads to the
/// position of the last global that carries it. A global without a name
/// is in no entry.
pub fn get_named_globals_map(module: &walrus::Module) -> (table: StringHashMap<usize>)
    ensures
        table@ == symbol_table(global_names(module_globals(*module))),
{
    let count = global_count(module);
    let ghost names = global_names(module_globals(*module));
    let mut table: StringHashMap<usize> = StringHashMap::new();
    let mut index: usize = 0;
    proof {
        assert(symbol_table(names.take(0)) =~= Map::<Seq<char>, usize>::empty());
    }
    while index < count
        invariant
            index <= count,
            count == names.len(),
            names == global_names(module_globals(*module)),
            table@ == symbol_table(names.take(index as int)),
        decreases count - index,
    {
        proof {
            lemma_symbol_table_step(names, index as int);
        }
        match global_name(module, index) {
            Some(name) => {
                table.insert(name, index);
            },
            None => {},
        }
        index += 1;
    }
    proof {
        assert(names.take(count as int) =~= names);
    }
    table
}

/// The table of the module's exports: each name leads to the position of
/// the last export under it.
pub fn get_exports_map(module: &walrus::Module) -> (table: StringHashMap<usize>)
    ensures
        table@ == symbol_table(export_names(module_exports(*module))),
{
    let count = export_count(module);
    let ghost names = export_names(module_exports(*module));
    let mut table: StringHashMap<usize> = StringHashMap::new();
    let mut index: usize = 0;
    proof {
        assert(symbol_table(names.take(0)) =~= Map::<Seq<char>, usize>::empty());
    }
    while index < count
        invariant
            index <= count,
            count == names.len(),
            names == export_names(module_exports(*module)),
            table@ == symbol_table(names.take(index as int)),
        decreases count - index,
    {
        proof {
            lemma_symbol_table_step(names, index as int);
        }
        match export_name(module, index) {
            Some(name) => {
                table.insert(name, index);
            },
            None => {},
        }
        index += 1;
    }
    proof {
        assert(names.take(count as int) =~= names);
    }
    table
}

/// The value of the global that `globals` files under `symbol`: `None`
/// where the table has no such name, where it leads to no global of the
/// module, and where the global is no 32-bit integer constant of the
/// module's own.
pub fn get_global(module: &walrus::Module, globals: &StringHashMap<usize>, symbol: &str) -> (value:
    Option<i32>)
    ensures
        value == named_global_value(module_globals(*module), globals@, symbol@),
{
    match globals.get(symbol) {
        Some(index) => global_value(module, *index),
        None => None,
    }
}

/// A borrow of the value that `get_global` reads. What is written through
/// it becomes the value of that global, and nothing else changes.
pub fn get_global_mut<'a>(
    module: &'a mut walrus::Module,
    globals: &StringHashMap<usize>,
    symbol: &str,
) -> (slot: Option<&'a mut i32>)
    ensures
        match slot {
            Some(cell) => named_global_value(module_globals(*old(module)), globals@, symbol@)
                == Some(*cell) && model_of(*final(module)) == model_of(*old(module)).with_global(
                globals@[symbol@] as int,
                *final(cell),
            ) && well_linked(*final(module)) == well_linked(*old(module)),
            None => named_global_value(module_globals(*old(module)), globals@, symbol@) is None
                && *final(module) == *old(module),
        },
{
    match globals.get(symbol) {
        Some(index) => global_slot(module, *index),
        None => None,
    }
}

/// The value of the global that is exported as `symbol`, going by the
/// table `exports`: `None` where the table has no such name, where the
/// export is no global, and where the global is no 32-bit integer constant
/// of the module's own.
pub fn get_global_from_exports(
    module: &walrus::Module,
    exports: &StringHashMap<usize>,
    symbol: &str,
) -> (value: Option<i32>)
    ensures
        value == exported_global_value(model_of(*module), exports@, symbol@),
{
    match exports.get(symbol) {
        Some(index) => match export_global(module, *index) {
            Some(global) => global_value(module, global),
            None => None,
        },
        None => None,
    }
}

/// A borrow of the value that `get_global_from_exports` reads. What is
/// written through it becomes the value of the exported global, and
/// nothing else changes.
pub fn get_global_from_exports_mut<'a>(
    module: &'a mut walrus::Module,
    exports: &StringHashMap<usize>,
    symbol: &str,
) -> (slot: Option<&'a mut i32>)
    ensures
        match slot {
            Some(cell) => exported_global_value(model_of(*old(module)), exports@, symbol@) == Some(
                *cell,
            ) && model_of(*final(module)) == model_of(*old(module)).with_global(
                exported_global(module_exports(*old(module)), exports@, symbol@).unwrap() as int,
                *final(cell),
            ) && well_linked(*final(module)) == well_linked(*old(module)),
            None => exported_global_value(model_of(*old(module)), exports@, symbol@) is None
                && *final(module) == *old(module),
        },
{
    match exports.get(symbol) {
        Some(index) => match export_global(module, *index) {
            Some(global) => global_slot(module, global),
            None => None,
        },
        None => None,
    }
}

/// A borrow of the address at which the data segment at `segment` is
/// loaded: `None` for a passive segment, for one whose address is no
/// 32-bit integer constant, and where the module has no such segment. What
/// is written through it becomes the segment's address, and nothing else
/// changes.
pub fn get_segment_position_mut<'a>(module: &'a mut walrus::Module, segment: usize) -> (slot:
    Option<&'a mut i32>)
    ensures
        match slot {
            Some(cell) => segment_address_at(module_segments(*old(module)), segment) == Some(
                *cell,
            ) && model_of(*final(module)) == model_of(*old(module)).with_segment(
                segment as int,
                *final(cell),
            ) && well_linked(*final(module)) == well_linked(*old(module)),
            None => segment_address_at(module_segments(*old(module)), segment) is None
                && *final(module) == *old(module),
        },
{
    segment_slot(module, segment)
}

} // verus!
