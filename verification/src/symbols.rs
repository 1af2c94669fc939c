//! The names under which the toolchain leaves a module's layout in it.

use vstd::prelude::*;

verus! {

/// The export that marks where the heap starts.
pub const HEAP_BASE: &'static str = "__heap_base";

/// The global that holds the top of the stack.
pub const STACK_POINTER: &'static str = "__stack_pointer";

/// The global that holds the start of the static data.
pub const MEMORY_BASE: &'static str = "GOT.data.internal.__memory_base";

/// The routine that initialises the memory.
pub const WASM_INIT_MEMORY: &'static str = "__wasm_init_memory";

} // verus!
