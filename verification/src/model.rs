//! A plain model of what a module holds, as far as relocation reads it.
//!
//! The entries of a module are known by their position: the third global is
//! the one that the module yields third. A cross-reference, such as the
//! global behind an export, is such a position too.

use vstd::prelude::*;

verus! {

/// A global of the module.
pub struct GlobalEntry {
    /// The name that the module's name section gives it, if any.
    pub name: Option<Seq<char>>,
    /// Its value, if the global is defined in the module by a 32-bit integer
    /// constant. `None` for an imported global and for one of another type
    /// or with another initialiser.
    pub value: Option<i32>,
}

impl GlobalEntry {
    /// The same global holding `value`.
    pub open spec fn with_value(self, value: i32) -> GlobalEntry {
        GlobalEntry { name: self.name, value: Some(value) }
    }
}

/// An export of the module.
pub struct ExportEntry {
    /// The name under which the item is exported.
    pub name: Seq<char>,
    /// The position of the exported global among the module's globals;
    /// `None` where a function, a table, a memory or a tag is exported.
    pub global: Option<usize>,
}

/// A function of the module.
pub struct FunctionEntry {
    /// The name that the module's name section gives it, if any.
    pub name: Option<Seq<char>>,
    /// The instructions of its body, for a function that the module
    /// defines; `None` for an imported one. An instruction that pushes a
    /// 32-bit integer constant stands as `Some` of that constant, every
    /// other instruction as `None`.
    pub body: Option<Seq<Option<i32>>>,
}

impl FunctionEntry {
    /// The same function with the constant `value` as instruction `at`.
    pub open spec fn with_constant(self, at: int, value: i32) -> FunctionEntry {
        match self.body {
            Some(body) => FunctionEntry { name: self.name, body: Some(body.update(at, Some(value))) },
            None => self,
        }
    }
}

/// A data segment of the module.
pub struct SegmentEntry {
    /// The address at which an active segment is loaded, where that
    /// address is a 32-bit integer constant; `None` for a passive segment
    /// and for one whose address is computed.
    pub address: Option<i32>,
    /// The bytes that the segment holds.
    pub bytes: Seq<u8>,
}

impl SegmentEntry {
    /// The same segment loaded at `address`.
    pub open spec fn with_address(self, address: i32) -> SegmentEntry {
        SegmentEntry { address: Some(address), bytes: self.bytes }
    }
}

/// The four tables of a module that relocation reads and writes.
pub struct ModuleModel {
    /// The globals, in the module's order.
    pub globals: Seq<GlobalEntry>,
    /// The exports, in the module's order.
    pub exports: Seq<ExportEntry>,
    /// The data segments, in the module's order.
    pub segments: Seq<SegmentEntry>,
    /// The functions, in the module's order.
    pub functions: Seq<FunctionEntry>,
}

impl ModuleModel {
    /// Whether a machine can hold the module: every table has a length
    /// that a position can count.
    pub open spec fn fits(self) -> bool {
        &&& self.globals.len() <= usize::MAX
        &&& self.exports.len() <= usize::MAX
        &&& self.segments.len() <= usize::MAX
        &&& self.functions.len() <= usize::MAX
    }

    /// The same module with `value` in the global at `index`.
    pub open spec fn with_global(self, index: int, value: i32) -> ModuleModel {
        ModuleModel {
            globals: self.globals.update(index, self.globals[index].with_value(value)),
            exports: self.exports,
            segments: self.segments,
            functions: self.functions,
        }
    }

    /// The same module with the segment at `index` loaded at `value`.
    pub open spec fn with_segment(self, index: int, value: i32) -> ModuleModel {
        ModuleModel {
            globals: self.globals,
            exports: self.exports,
            segments: self.segments.update(index, self.segments[index].with_address(value)),
            functions: self.functions,
        }
    }

    /// The same module with the constant `value` as instruction `at` of
    /// the function at `function`.
    pub open spec fn with_constant(self, function: int, at: int, value: i32) -> ModuleModel {
        ModuleModel {
            globals: self.globals,
            exports: self.exports,
            segments: self.segments,
            functions: self.functions.update(
                function,
                self.functions[function].with_constant(at, value),
            ),
        }
    }

    /// The constant that instruction `at` of the function at `function`
    /// pushes, if there is such an instruction in a function that the
    /// module defines and it pushes a 32-bit integer constant.
    pub open spec fn constant_at(self, function: usize, at: usize) -> Option<i32> {
        if function < self.functions.len() {
            match self.functions[function as int].body {
                Some(body) => if at < body.len() {
                    body[at as int]
                } else {
                    None
                },
                None => None,
            }
        } else {
            None
        }
    }
}

/// The names of the globals, position by position.
pub open spec fn global_names(globals: Seq<GlobalEntry>) -> Seq<Option<Seq<char>>> {
    Seq::new(globals.len(), |i: int| globals[i].name)
}

/// The names of the exports, position by position.
pub open spec fn export_names(exports: Seq<ExportEntry>) -> Seq<Option<Seq<char>>> {
    Seq::new(exports.len(), |i: int| Some(exports[i].name))
}

/// The names of the functions, position by position.
pub open spec fn function_names(functions: Seq<FunctionEntry>) -> Seq<Option<Seq<char>>> {
    Seq::new(functions.len(), |i: int| functions[i].name)
}

/// The last position that carries the name `symbol`.
pub open spec fn last_named(names: Seq<Option<Seq<char>>>, symbol: Seq<char>) -> Option<usize>
    decreases names.len(),
{
    if names.len() == 0 {
        None
    } else if names.last() == Some(symbol) {
        Some((names.len() - 1) as usize)
    } else {
        last_named(names.drop_last(), symbol)
    }
}

/// The first position that carries the name `symbol`.
pub open spec fn first_named(names: Seq<Option<Seq<char>>>, symbol: Seq<char>) -> Option<usize>
    decreases names.len(),
{
    if names.len() == 0 {
        None
    } else {
        match first_named(names.drop_last(), symbol) {
            Some(i) => Some(i),
            None => if names.last() == Some(symbol) {
                Some((names.len() - 1) as usize)
            } else {
                None
            },
        }
    }
}

/// The table from each name to the last position that carries it: where a
/// name occurs twice, the later entry hides the earlier one.
pub open spec fn symbol_table(names: Seq<Option<Seq<char>>>) -> Map<Seq<char>, usize> {
    Map::new(
        |symbol: Seq<char>| last_named(names, symbol) is Some,
        |symbol: Seq<char>| last_named(names, symbol).unwrap(),
    )
}

/// Whether `found` is what a search for the last `symbol` in `names` gives.
pub open spec fn is_last_named(
    names: Seq<Option<Seq<char>>>,
    symbol: Seq<char>,
    found: Option<usize>,
) -> bool {
    match found {
        Some(i) => i < names.len() && names[i as int] == Some(symbol) && forall|j: int|
            i < j < names.len() ==> names[j] != Some(symbol),
        None => forall|j: int| 0 <= j < names.len() ==> names[j] != Some(symbol),
    }
}

/// Whether `found` is what a search for the first `symbol` in `names` gives.
pub open spec fn is_first_named(
    names: Seq<Option<Seq<char>>>,
    symbol: Seq<char>,
    found: Option<usize>,
) -> bool {
    match found {
        Some(i) => i < names.len() && names[i as int] == Some(symbol) && forall|j: int|
            0 <= j < i ==> names[j] != Some(symbol),
        None => forall|j: int| 0 <= j < names.len() ==> names[j] != Some(symbol),
    }
}

/// `last_named` finds the last position with the name, and nothing where
/// no position has it.
pub proof fn lemma_last_named(names: Seq<Option<Seq<char>>>, symbol: Seq<char>)
    requires
        names.len() <= usize::MAX,
    ensures
        is_last_named(names, symbol, last_named(names, symbol)),
    decreases names.len(),
{
    if names.len() > 0 && names.last() != Some(symbol) {
        let front = names.drop_last();
        lemma_last_named(front, symbol);
        assert forall|j: int| 0 <= j < front.len() implies front[j] == names[j] by {}
        match last_named(front, symbol) {
            Some(i) => {
                assert forall|j: int| i < j < names.len() implies names[j] != Some(symbol) by {
                    if j < front.len() {
                        assert(front[j] != Some(symbol));
                    }
                }
            },
            None => {
                assert forall|j: int| 0 <= j < names.len() implies names[j] != Some(symbol) by {
                    if j < front.len() {
                        assert(front[j] != Some(symbol));
                    }
                }
            },
        }
    }
}

/// `first_named` finds the first position with the name, and nothing where
/// no position has it.
pub proof fn lemma_first_named(names: Seq<Option<Seq<char>>>, symbol: Seq<char>)
    requires
        names.len() <= usize::MAX,
    ensures
        is_first_named(names, symbol, first_named(names, symbol)),
    decreases names.len(),
{
    if names.len() > 0 {
        let front = names.drop_last();
        lemma_first_named(front, symbol);
        assert forall|j: int| 0 <= j < front.len() implies front[j] == names[j] by {}
        match first_named(front, symbol) {
            Some(i) => {
                assert forall|j: int| 0 <= j < i implies names[j] != Some(symbol) by {
                    assert(front[j] != Some(symbol));
                }
            },
            None => {
                assert forall|j: int| 0 <= j < front.len() implies names[j] != Some(symbol) by {
                    assert(front[j] != Some(symbol));
                }
            },
        }
    }
}

/// A search result that meets `is_first_named` is the one that
/// `first_named` gives.
pub proof fn lemma_first_named_unique(
    names: Seq<Option<Seq<char>>>,
    symbol: Seq<char>,
    found: Option<usize>,
)
    requires
        is_first_named(names, symbol, found),
    ensures
        found == first_named(names, symbol),
    decreases names.len(),
{
    if names.len() > 0 {
        let front = names.drop_last();
        assert forall|j: int| 0 <= j < front.len() implies front[j] == names[j] by {}
        match found {
            Some(i) => {
                if i < front.len() {
                    lemma_first_named_unique(front, symbol, found);
                } else {
                    lemma_first_named_unique(front, symbol, None);
                }
            },
            None => {
                lemma_first_named_unique(front, symbol, None);
            },
        }
    }
}

/// The address of the segment at `index`, if there is such a segment and
/// it is loaded at a 32-bit integer constant.
pub open spec fn segment_address_at(segments: Seq<SegmentEntry>, index: usize) -> Option<i32> {
    if index < segments.len() {
        segments[index as int].address
    } else {
        None
    }
}

/// The value of the global at `index`, if there is such a global and it
/// holds a 32-bit integer constant.
pub open spec fn global_value_at(globals: Seq<GlobalEntry>, index: usize) -> Option<i32> {
    if index < globals.len() {
        globals[index as int].value
    } else {
        None
    }
}

/// The global behind the export at `index`, if there is such an export and
/// it exports a global.
pub open spec fn exported_global_at(exports: Seq<ExportEntry>, index: usize) -> Option<usize> {
    if index < exports.len() {
        exports[index as int].global
    } else {
        None
    }
}

/// The value that `table` and the globals give to `symbol`.
pub open spec fn named_global_value(
    globals: Seq<GlobalEntry>,
    table: Map<Seq<char>, usize>,
    symbol: Seq<char>,
) -> Option<i32> {
    if table.contains_key(symbol) {
        global_value_at(globals, table[symbol])
    } else {
        None
    }
}

/// The position of the global that `symbol` is exported as, going by
/// `table`.
pub open spec fn exported_global(
    exports: Seq<ExportEntry>,
    table: Map<Seq<char>, usize>,
    symbol: Seq<char>,
) -> Option<usize> {
    if table.contains_key(symbol) {
        exported_global_at(exports, table[symbol])
    } else {
        None
    }
}

/// The value of the global that `symbol` is exported as, going by `table`.
pub open spec fn exported_global_value(
    model: ModuleModel,
    table: Map<Seq<char>, usize>,
    symbol: Seq<char>,
) -> Option<i32> {
    match exported_global(model.exports, table, symbol) {
        Some(index) => global_value_at(model.globals, index),
        None => None,
    }
}

} // verus!
