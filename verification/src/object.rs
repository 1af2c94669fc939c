//! The record that modules sharing one memory hand to each other.
//!
//! A module that was relocated keeps its own heap, so a record that one
//! module allocates can be read by another through the shared memory.

use vstd::prelude::*;

verus! {

/// A record with one field, laid out the same way in every module.
#[derive(Clone, Copy, Debug, PartialEq, Eq, Structural)]
pub struct Object {
    /// What the record holds.
    pub value: i64,
}

/// Reads the record.
pub fn get_value(object: &Object) -> (value: i64)
    ensures
        value == object.value,
{
    object.value
}

} // verus!
