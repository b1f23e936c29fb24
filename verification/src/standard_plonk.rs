//! The standard circuit shape, usable only for the configuration phase.
//!
//! Configuring this circuit allocates three equality-enabled advice columns
//! `a`, `b`, `c`, five fixed columns `q_a`, `q_b`, `q_c`, `q_ab`,
//! `constant`, one instance column, and registers the single gate
//! `q_a·a + q_b·b + q_c·c + q_ab·a·b + constant + instance = 0`.
//! The circuit carries no witness data: it exists to reconstruct column and
//! gate shape (for example when deserializing a verification key), and its
//! synthesis phase must never be invoked.

use vstd::pervasive::unreached;
use vstd::prelude::*;
use vstd::string::StringExecFns;

use crate::circuit::{Circuit, Error};
use crate::column::{Column, ColumnKind, Rotation};
use crate::constraint_system::{expr_wf, ConfigError, ConstraintSystem, CsView};
use crate::expression::{Expression, Query};

verus! {

/// The name the standard gate is registered under.
pub open spec fn standard_gate_name() -> Seq<char> {
    "q_a·a + q_b·b + q_c·c + q_ab·a·b + constant + instance = 0"@
}

/// The `i`-th advice column the standard circuit allocates on a system
/// whose state is `v`.
pub open spec fn advice_col(v: CsView, i: nat) -> Column {
    Column { kind: ColumnKind::Advice, index: (v.num_advice + i) as usize }
}

/// The `i`-th fixed column the standard circuit allocates on `v`.
pub open spec fn fixed_col(v: CsView, i: nat) -> Column {
    Column { kind: ColumnKind::Fixed, index: (v.num_fixed + i) as usize }
}

/// The instance column the standard circuit allocates on `v`.
pub open spec fn instance_col(v: CsView) -> Column {
    Column { kind: ColumnKind::Instance, index: v.num_instance as usize }
}

/// A query of `column` at the constrained row itself.
pub open spec fn query_cur(column: Column) -> Expression {
    Expression::Query(Query { column, rotation: Rotation { offset: 0 } })
}

/// The sum of two expressions.
pub open spec fn plus(x: Expression, y: Expression) -> Expression {
    Expression::Sum(Box::new(x), Box::new(y))
}

/// The product of two expressions.
pub open spec fn times(x: Expression, y: Expression) -> Expression {
    Expression::Product(Box::new(x), Box::new(y))
}

/// The standard gate's polynomial identity over the columns allocated on
/// `v`: `q_a·a + q_b·b + q_c·c + q_ab·a·b + constant + instance`.
pub open spec fn standard_gate_expression(v: CsView) -> Expression {
    let a = query_cur(advice_col(v, 0));
    let b = query_cur(advice_col(v, 1));
    let c = query_cur(advice_col(v, 2));
    let q_a = query_cur(fixed_col(v, 0));
    let q_b = query_cur(fixed_col(v, 1));
    let q_c = query_cur(fixed_col(v, 2));
    let q_ab = query_cur(fixed_col(v, 3));
    let constant = query_cur(fixed_col(v, 4));
    let instance = query_cur(instance_col(v));
    plus(
        plus(
            plus(plus(plus(times(q_a, a), times(q_b, b)), times(q_c, c)), times(times(q_ab, a), b)),
            constant,
        ),
        instance,
    )
}

/// What configuring the standard circuit asks of the system it is given:
/// room for three advice, five fixed and one instance column.
pub open spec fn standard_plonk_pre(v: CsView) -> bool {
    &&& v.num_advice + 3 <= usize::MAX
    &&& v.num_fixed + 5 <= usize::MAX
    &&& v.num_instance + 1 <= usize::MAX
}

/// The system state after configuring the standard circuit on a system in
/// state `v`: a function of `v` alone, so configuration is deterministic.
pub open spec fn standard_plonk_configured(v: CsView) -> CsView {
    v.with_columns(ColumnKind::Advice, 3).with_columns(ColumnKind::Fixed, 5).with_columns(
        ColumnKind::Instance,
        1,
    ).with_equality(advice_col(v, 0)).with_equality(advice_col(v, 1)).with_equality(
        advice_col(v, 2),
    ).with_gates(standard_gate_name(), seq![standard_gate_expression(v)])
}

/// Populates `meta` with the standard circuit shape: columns, equality
/// constraints on `a`, `b`, `c`, and the single standard gate.
pub fn configure_circuit(meta: &mut ConstraintSystem)
    requires
        old(meta)@.wf(),
        standard_plonk_pre(old(meta)@),
    ensures
        final(meta)@ == standard_plonk_configured(old(meta)@),
        final(meta)@.wf(),
{
    let ghost v = old(meta)@;
    let a = meta.advice_column();
    let b = meta.advice_column();
    let c = meta.advice_column();
    let q_a = meta.fixed_column();
    let q_b = meta.fixed_column();
    let q_c = meta.fixed_column();
    let q_ab = meta.fixed_column();
    let constant = meta.fixed_column();
    let instance = meta.instance_column();
    proof {
        assert(meta@ =~= v.with_columns(ColumnKind::Advice, 3).with_columns(
            ColumnKind::Fixed,
            5,
        ).with_columns(ColumnKind::Instance, 1));
        assert(a == advice_col(v, 0));
        assert(b == advice_col(v, 1));
        assert(c == advice_col(v, 2));
        assert(q_a == fixed_col(v, 0));
        assert(q_b == fixed_col(v, 1));
        assert(q_c == fixed_col(v, 2));
        assert(q_ab == fixed_col(v, 3));
        assert(constant == fixed_col(v, 4));
        assert(instance == instance_col(v));
    }
    let _ = meta.enable_equality(a);
    let _ = meta.enable_equality(b);
    let _ = meta.enable_equality(c);

    proof {
        assert(meta@.owns(a));
        assert(meta@.owns(b));
        assert(meta@.owns(c));
        assert(meta@.owns(q_a));
        assert(meta@.owns(q_b));
        assert(meta@.owns(q_c));
        assert(meta@.owns(q_ab));
        assert(meta@.owns(constant));
        assert(meta@.owns(instance));
    }
    let a_q = expect_built(meta.query_advice(a, Rotation::cur()));
    let a_again = expect_built(meta.query_advice(a, Rotation::cur()));
    let b_q = expect_built(meta.query_advice(b, Rotation::cur()));
    let b_again = expect_built(meta.query_advice(b, Rotation::cur()));
    let c_q = expect_built(meta.query_advice(c, Rotation::cur()));
    let q_a_q = expect_built(meta.query_fixed(q_a, Rotation::cur()));
    let q_b_q = expect_built(meta.query_fixed(q_b, Rotation::cur()));
    let q_c_q = expect_built(meta.query_fixed(q_c, Rotation::cur()));
    let q_ab_q = expect_built(meta.query_fixed(q_ab, Rotation::cur()));
    let constant_q = expect_built(meta.query_fixed(constant, Rotation::cur()));
    let instance_q = expect_built(meta.query_instance(instance, Rotation::cur()));
    let gate = q_a_q.product(a_q).sum(q_b_q.product(b_q)).sum(q_c_q.product(c_q)).sum(
        q_ab_q.product(a_again).product(b_again),
    ).sum(constant_q).sum(instance_q);
    proof {
        assert(gate == standard_gate_expression(v));
    }

    let mut constraints: Vec<Expression> = Vec::new();
    constraints.push(gate);
    proof {
        assert(constraints@ =~= seq![standard_gate_expression(v)]);
    }
    proof {
        assert(expr_wf(standard_gate_expression(v), meta@)) by {
            reveal_with_fuel(expr_wf, 16);
        }
        assert(forall|i: int|
            0 <= i < constraints@.len() ==> expr_wf(#[trigger] constraints@[i], meta@));
    }
    let name = String::from_str("q_a·a + q_b·b + q_c·c + q_ab·a·b + constant + instance = 0");
    let _ = meta.create_gate(name, constraints);
    proof {
        assert(meta@ =~= standard_plonk_configured(v));
    }
}

/// Extracts the expression of a query known to succeed.
fn expect_built(r: Result<Expression, ConfigError>) -> (e: Expression)
    requires
        r is Ok,
    ensures
        r == Ok::<Expression, ConfigError>(e),
{
    match r {
        Ok(e) => e,
        Err(_) => unreached(),
    }
}

/// Standard circuit handle. It is stateless: the type exists to declare the
/// standard shape, and only its configuration phase may run.
#[derive(Clone, Copy, PartialEq, Eq, Structural, Hash, Debug)]
pub struct StandardPlonk;

impl Default for StandardPlonk {
    /// The (only) instance of the standard circuit.
    fn default() -> (r: StandardPlonk)
        ensures
            r == StandardPlonk,
    {
        StandardPlonk
    }
}

impl Circuit for StandardPlonk {
    type Config = ();

    /// Synthesis is never allowed: the circuit is configuration-only.
    open spec fn synthesis_allowed(&self) -> bool {
        false
    }

    open spec fn configure_pre(v: CsView) -> bool {
        standard_plonk_pre(v)
    }

    /// Stripping witnesses from a stateless instance is its own identity.
    open spec fn without_witnesses_spec(&self) -> StandardPlonk {
        *self
    }

    fn without_witnesses(&self) -> (r: StandardPlonk) {
        StandardPlonk::default()
    }

    fn configure(cs: &mut ConstraintSystem) -> (config: ())
        ensures
            final(cs)@ == standard_plonk_configured(old(cs)@),
    {
        configure_circuit(cs)
    }

    /// Configuration-only: no verified caller can reach this, and an
    /// unverified caller aborts the process rather than obtaining a witness.
    fn synthesize(&self, config: ()) -> (r: Result<(), Error>) {
        proof {
            assert(false);
        }
        unreached()
    }
}

/// Stripping witnesses and then configuring yields a constraint system
/// structurally identical to configuring the original instance's type
/// directly: `without_witnesses` preserves the instance, and the configured
/// state is a function of the initial system alone.
pub proof fn lemma_without_witnesses_preserves_configuration(s: StandardPlonk)
    ensures
        s.without_witnesses_spec() == s,
{
}

} // verus!
