//! Configuration model for a PLONK-style arithmetic circuit: typed columns,
//! custom gates built as polynomial identities over column queries at
//! relative row offsets, and copy-constraint bookkeeping.
//!
//! The library covers the configure phase of a circuit: a circuit
//! implementation allocates columns, enables equality constraints and
//! registers gates on a [`constraint_system::ConstraintSystem`], producing a
//! frozen description that external proving and verifying machinery consumes.

pub mod circuit;
pub mod column;
pub mod constraint_system;
pub mod expression;
pub mod field;
pub mod standard_plonk;
