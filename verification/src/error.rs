//! The ways in which a relocation is refused.

use vstd::prelude::*;

verus! {

/// One of the names that the toolchain gives to the parts of a module's
/// memory layout.
#[derive(Clone, Copy, Debug, PartialEq, Eq, Structural)]
pub enum Symbol {
    /// The export that marks where the heap starts.
    HeapBase,
    /// The global that holds the top of the stack.
    StackPointer,
    /// The global that holds the start of the static data.
    MemoryBase,
    /// The routine that initialises the memory.
    InitMemory,
}

/// What is wrong with the routine that initialises the memory.
#[derive(Clone, Copy, Debug, PartialEq, Eq, Structural)]
pub enum Mismatch {
    /// Its body does not hold exactly four instructions.
    InstructionCount,
    /// Its first instruction is not a 32-bit integer constant.
    FirstNotConstant,
    /// Its first constant is no address between the stack pointer
    /// (included) and the heap base (excluded).
    OutOfBounds,
}

/// Why a module was not relocated. Every one of them ends the call before
/// anything is written.
#[derive(Clone, Copy, Debug, PartialEq, Eq, Structural)]
pub enum RelocateError {
    /// The bytes are no module that `walrus` can read.
    Malformed,
    /// The module has nothing under that name.
    MissingSymbol(Symbol),
    /// The name is there, but what it stands for is imported, or is no
    /// 32-bit integer constant.
    WrongKind(Symbol),
    /// The routine that initialises the memory has not the shape that the
    /// toolchain gives it.
    ShapeMismatch(Mismatch),
}

} // verus!
