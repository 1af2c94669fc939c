//! Relocation of a WebAssembly module inside a shared linear memory.
//!
//! Several modules that were compiled on their own can live in one linear
//! memory if each of them keeps its static data, its stack and its heap in a
//! region of its own. This crate moves one module to such a region: every
//! address that the module carries in its globals, in its data segments and in
//! the routine that initialises its memory is shifted by one offset, and the
//! start of its heap is set to the address that the caller chose.
//!
//! The module itself is read and written through `walrus`; the rules of the
//! relocation are stated over a plain model of what a module holds, and the
//! functions that apply them are verified against that model.

pub mod error;
pub mod laws;
pub mod layout;
pub mod model;
pub mod object;
pub mod relocate;
pub mod simple;
pub mod symbols;
pub mod utils;
pub mod wasm;

pub use crate::error::{Mismatch, RelocateError, Symbol};
pub use crate::object::Object;
pub use crate::relocate::{get_heap_base, relocate, relocate_module};
