//! Typed column handles and row-relative rotations.
//!
//! A column is a handle `{ kind, index }` allocated by a constraint system
//! during the configure phase: advice and instance columns hold per-row
//! witness and public values, fixed columns hold circuit-defined constants.
//! Indices are assigned sequentially per kind and never reused. A rotation
//! is a signed row offset relative to the row being constrained.

use vstd::prelude::*;

verus! {

/// The three kinds of column a constraint system can allocate.
#[derive(Clone, Copy, PartialEq, Eq, Structural, Hash, Debug)]
pub enum ColumnKind {
    /// Per-row witness values, assigned during synthesis.
    Advice,
    /// Circuit-defined constants, part of the circuit description.
    Fixed,
    /// Per-row public inputs.
    Instance,
}

/// A handle to one column of a constraint system: its kind and its index
/// within that kind.
#[derive(Clone, Copy, PartialEq, Eq, Structural, Hash, Debug)]
pub struct Column {
    /// Which family of columns the handle refers to.
    pub kind: ColumnKind,
    /// Position within the family, assigned sequentially from zero.
    pub index: usize,
}

/// A signed row offset relative to the row currently being constrained.
#[derive(Clone, Copy, PartialEq, Eq, Structural, Hash, Debug)]
pub struct Rotation {
    /// The offset: zero is the constrained row itself.
    pub offset: i32,
}

impl Rotation {
    /// The row being constrained.
    pub fn cur() -> (r: Rotation)
        ensures
            r.offset == 0,
    {
        Rotation { offset: 0 }
    }

    /// The row immediately before the constrained row.
    pub fn prev() -> (r: Rotation)
        ensures
            r.offset == -1,
    {
        Rotation { offset: -1 }
    }

    /// The row immediately after the constrained row.
    pub fn next() -> (r: Rotation)
        ensures
            r.offset == 1,
    {
        Rotation { offset: 1 }
    }
}

} // verus!
