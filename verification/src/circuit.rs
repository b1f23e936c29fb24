//! The two-phase circuit configuration protocol.
//!
//! A circuit implementation fulfils the capability set configure /
//! synthesize / without-witnesses. Configure runs once per circuit type on
//! a fresh constraint system, is deterministic, and mutates nothing but the
//! system it is given. Synthesize runs once per circuit instance, driven by
//! an external layouter, and places witness values; a configuration-only
//! circuit forbids it outright: its `synthesis_allowed` is `false`, so no
//! verified caller can invoke it, and an unverified caller aborts.

use vstd::prelude::*;

use crate::constraint_system::{ConstraintSystem, CsView};

verus! {

/// An error surfaced by the synthesis phase.
#[derive(Clone, Copy, PartialEq, Eq, Structural, Hash, Debug)]
pub enum Error {
    /// Witness placement failed.
    Synthesis,
}

/// The capability set a circuit implementation fulfils: configure,
/// synthesize, and stripping an instance of its witness data.
pub trait Circuit: Sized {
    /// The opaque configuration value the configure phase returns, owned by
    /// the circuit implementation and handed unchanged into synthesis.
    type Config;

    /// Whether the synthesis phase may be invoked on this instance at all.
    /// A configuration-only circuit defines this as `false`: invoking
    /// synthesize on it is a programming misuse, never a recoverable error.
    spec fn synthesis_allowed(&self) -> bool;

    /// What `configure` asks of the constraint system it is given — at most
    /// machine limits on the column counts.
    spec fn configure_pre(v: CsView) -> bool;

    /// The instance that `without_witnesses` returns.
    spec fn without_witnesses_spec(&self) -> Self;

    /// A copy of this instance with all per-instance witness data removed,
    /// behaviorally identical to the original for configuration purposes.
    fn without_witnesses(&self) -> (r: Self)
        ensures
            r == self.without_witnesses_spec(),
    ;

    /// The one-time configure phase: populates `cs` with the circuit's
    /// columns, equality constraints and gates, and returns the circuit's
    /// configuration value. Deterministic and free of side effects beyond
    /// the mutation of `cs`.
    fn configure(cs: &mut ConstraintSystem) -> (config: Self::Config)
        requires
            old(cs)@.wf(),
            Self::configure_pre(old(cs)@),
        ensures
            final(cs)@.wf(),
    ;

    /// The per-instance synthesis phase: given the configuration and with
    /// witness placement driven externally, assigns values consistent with
    /// every gate's zero identity.
    fn synthesize(&self, config: Self::Config) -> (r: Result<(), Error>)
        requires
            self.synthesis_allowed(),
    ;
}

} // verus!
