//! The constraint-system registry populated during the configure phase.
//!
//! A constraint system records how many columns of each kind have been
//! allocated, which columns take part in copy (equality) constraints, and
//! the ordered sequence of registered gates. It is built once during
//! configure and consumed read-only by external proving and verifying
//! machinery afterwards.
//!
//! Configuration errors — referencing a column the system never allocated —
//! are caught when the offending handle is used, never deferred: a gate
//! whose expression queries an unknown column is rejected and the system is
//! left unchanged.

use vstd::prelude::*;

use crate::column::{Column, ColumnKind, Rotation};
use crate::expression::{Expression, Query};

verus! {

/// A configuration error: the circuit description is invalid and must be
/// fixed by the implementer, not retried at runtime.
#[derive(Clone, Copy, PartialEq, Eq, Structural, Hash, Debug)]
pub enum ConfigError {
    /// A column handle was used that the constraint system never allocated.
    ColumnNotInSystem,
    /// A column handle of one kind was handed to a query of another kind.
    WrongColumnKind,
}

/// A named polynomial identity: an expression required to evaluate to the
/// field zero on every row its gate is active on. Every registered gate is
/// unconditionally active; conditional activation through selectors is an
/// external extension.
#[derive(PartialEq, Eq, Debug)]
pub struct Gate {
    /// The name this gate was registered under.
    pub name: String,
    /// The polynomial identity constrained to zero.
    pub expression: Expression,
}

/// The mathematical value of one registered gate.
#[verifier::ext_equal]
pub struct GateView {
    /// Its name.
    pub name: Seq<char>,
    /// Its polynomial identity.
    pub expression: Expression,
}

impl View for Gate {
    type V = GateView;

    open spec fn view(&self) -> GateView {
        GateView { name: self.name@, expression: self.expression }
    }
}

/// The mathematical value of a constraint system: how many columns of each
/// kind exist, which columns take part in equality constraints, and the
/// registered gates in registration order.
#[verifier::ext_equal]
pub struct CsView {
    /// Number of advice columns allocated so far.
    pub num_advice: nat,
    /// Number of fixed columns allocated so far.
    pub num_fixed: nat,
    /// Number of instance columns allocated so far.
    pub num_instance: nat,
    /// The columns on which equality constraints are enabled.
    pub equality: Set<Column>,
    /// The registered gates, in registration order.
    pub gates: Seq<GateView>,
}

impl CsView {
    /// The value of a freshly created, empty constraint system.
    pub open spec fn empty() -> CsView {
        CsView {
            num_advice: 0,
            num_fixed: 0,
            num_instance: 0,
            equality: Set::empty(),
            gates: Seq::empty(),
        }
    }

    /// How many columns of `kind` the system holds.
    pub open spec fn count_of(self, kind: ColumnKind) -> nat {
        match kind {
            ColumnKind::Advice => self.num_advice,
            ColumnKind::Fixed => self.num_fixed,
            ColumnKind::Instance => self.num_instance,
        }
    }

    /// Whether `column` was allocated by this system: its index lies below
    /// the number of columns of its kind.
    pub open spec fn owns(self, column: Column) -> bool {
        column.index < self.count_of(column.kind)
    }

    /// The system after allocating one more column of `kind`.
    pub open spec fn with_column(self, kind: ColumnKind) -> CsView {
        match kind {
            ColumnKind::Advice => CsView { num_advice: self.num_advice + 1, ..self },
            ColumnKind::Fixed => CsView { num_fixed: self.num_fixed + 1, ..self },
            ColumnKind::Instance => CsView { num_instance: self.num_instance + 1, ..self },
        }
    }

    /// The system after `k` successive allocations of `kind`: that kind's
    /// count raised by `k`, everything else untouched.
    pub open spec fn with_columns(self, kind: ColumnKind, k: nat) -> CsView {
        match kind {
            ColumnKind::Advice => CsView { num_advice: self.num_advice + k, ..self },
            ColumnKind::Fixed => CsView { num_fixed: self.num_fixed + k, ..self },
            ColumnKind::Instance => CsView { num_instance: self.num_instance + k, ..self },
        }
    }

    /// The index the `i`-th allocation of `kind` (counting from zero)
    /// assigns, when performed on this system.
    pub open spec fn allocated_index(self, kind: ColumnKind, i: nat) -> nat {
        self.with_columns(kind, i).count_of(kind)
    }

    /// The system after enabling equality on `column`.
    pub open spec fn with_equality(self, column: Column) -> CsView {
        CsView { equality: self.equality.insert(column), ..self }
    }

    /// The system after registering one gate per expression of `exprs`,
    /// each named `name`, in order.
    pub open spec fn with_gates(self, name: Seq<char>, exprs: Seq<Expression>) -> CsView {
        CsView { gates: self.gates + as_gates(name, exprs), ..self }
    }

    /// Well-formedness: every equality-enabled column was allocated, and
    /// every registered gate queries only allocated columns. A fresh system
    /// is well-formed and every operation of the registry preserves this.
    pub open spec fn wf(self) -> bool {
        &&& forall|c: Column| #[trigger] self.equality.contains(c) ==> self.owns(c)
        &&& forall|i: int|
            0 <= i < self.gates.len() ==> expr_wf(#[trigger] self.gates[i].expression, self)
    }

    /// Whether this system holds at least the columns of `other`.
    pub open spec fn covers(self, other: CsView) -> bool {
        &&& self.num_advice >= other.num_advice
        &&& self.num_fixed >= other.num_fixed
        &&& self.num_instance >= other.num_instance
    }
}

/// One gate view per expression, all named `name`, in the order given.
pub open spec fn as_gates(name: Seq<char>, exprs: Seq<Expression>) -> Seq<GateView> {
    exprs.map(|i: int, e: Expression| GateView { name, expression: e })
}

/// Whether every query of `e` reads a column that `v` allocated.
pub open spec fn expr_wf(e: Expression, v: CsView) -> bool
    decreases e,
{
    match e {
        Expression::Constant(_) => true,
        Expression::Query(q) => v.owns(q.column),
        Expression::Negated(x) => expr_wf(*x, v),
        Expression::Sum(x, y) => expr_wf(*x, v) && expr_wf(*y, v),
        Expression::Product(x, y) => expr_wf(*x, v) && expr_wf(*y, v),
        Expression::Scaled(x, _) => expr_wf(*x, v),
    }
}

/// An expression well-formed in a system stays well-formed in any system
/// holding at least the same columns: columns are never removed.
pub proof fn lemma_expr_wf_monotone(e: Expression, v: CsView, w: CsView)
    requires
        expr_wf(e, v),
        w.covers(v),
    ensures
        expr_wf(e, w),
    decreases e,
{
    match e {
        Expression::Constant(_) => {},
        Expression::Query(_) => {},
        Expression::Negated(x) => {
            lemma_expr_wf_monotone(*x, v, w);
        },
        Expression::Sum(x, y) => {
            lemma_expr_wf_monotone(*x, v, w);
            lemma_expr_wf_monotone(*y, v, w);
        },
        Expression::Product(x, y) => {
            lemma_expr_wf_monotone(*x, v, w);
            lemma_expr_wf_monotone(*y, v, w);
        },
        Expression::Scaled(x, _) => {
            lemma_expr_wf_monotone(*x, v, w);
        },
    }
}

/// `with_columns` means `k` successive single allocations: no allocations
/// change nothing, one more allocation extends the run by one, and a run of
/// `k` raises that kind's count by `k` while leaving other counts, the
/// equality set and the gates unchanged.
pub proof fn lemma_with_columns(v: CsView, kind: ColumnKind, k: nat)
    ensures
        v.with_columns(kind, 0) == v,
        v.with_columns(kind, k).with_column(kind) == v.with_columns(kind, k + 1),
        v.with_columns(kind, k).count_of(kind) == v.count_of(kind) + k,
        forall|other: ColumnKind| other != kind ==> v.with_columns(kind, k).count_of(other)
            == v.count_of(other),
        v.with_columns(kind, k).equality == v.equality,
        v.with_columns(kind, k).gates == v.gates,
{
    assert(v.with_columns(kind, 0) =~= v);
    assert(v.with_columns(kind, k).with_column(kind) =~= v.with_columns(kind, k + 1));
}

/// Indices assigned within a kind are unique and monotonically increasing:
/// the `i`-th allocation of a kind assigns index `count + i`, so on a fresh
/// system the assigned indices are exactly `0, 1, 2, …`, never reused.
pub proof fn lemma_allocation_indices(v: CsView, kind: ColumnKind, i: nat, j: nat)
    requires
        i < j,
    ensures
        v.allocated_index(kind, i) == v.count_of(kind) + i,
        CsView::empty().allocated_index(kind, i) == i,
        v.allocated_index(kind, i) < v.allocated_index(kind, j),
{
    lemma_with_columns(v, kind, i);
    lemma_with_columns(v, kind, j);
    lemma_with_columns(CsView::empty(), kind, i);
}

/// Enabling equality on the same column twice yields the same equality set
/// — and the same system — as enabling it once.
pub proof fn lemma_enable_equality_idempotent(v: CsView, column: Column)
    ensures
        v.with_equality(column).with_equality(column) == v.with_equality(column),
{
    assert(v.equality.insert(column).insert(column) =~= v.equality.insert(column));
    assert(v.with_equality(column).with_equality(column) =~= v.with_equality(column));
}

/// The registry a circuit populates during its configure phase.
pub struct ConstraintSystem {
    num_advice: usize,
    num_fixed: usize,
    num_instance: usize,
    equality: Vec<Column>,
    gates: Vec<Gate>,
}

impl View for ConstraintSystem {
    type V = CsView;

    closed spec fn view(&self) -> CsView {
        CsView {
            num_advice: self.num_advice as nat,
            num_fixed: self.num_fixed as nat,
            num_instance: self.num_instance as nat,
            equality: self.equality@.to_set(),
            gates: self.gates@.map(|i: int, g: Gate| g@),
        }
    }
}

impl ConstraintSystem {
    /// A fresh, empty, well-formed constraint system.
    pub fn new() -> (r: ConstraintSystem)
        ensures
            r@ == CsView::empty(),
            r@.wf(),
    {
        let r = ConstraintSystem {
            num_advice: 0,
            num_fixed: 0,
            num_instance: 0,
            equality: Vec::new(),
            gates: Vec::new(),
        };
        proof {
            assert(r@ =~= CsView::empty());
        }
        r
    }

    /// Allocates a new column of `kind`, assigning the next free index for
    /// that kind. Indices are never reused.
    pub fn allocate_column(&mut self, kind: ColumnKind) -> (r: Column)
        requires
            old(self)@.wf(),
            old(self)@.count_of(kind) < usize::MAX,
        ensures
            final(self)@ == old(self)@.with_column(kind),
            final(self)@.wf(),
            r == (Column { kind, index: old(self)@.count_of(kind) as usize }),
    {
        let index: usize = match kind {
            ColumnKind::Advice => {
                let i = self.num_advice;
                self.num_advice = i + 1;
                i
            },
            ColumnKind::Fixed => {
                let i = self.num_fixed;
                self.num_fixed = i + 1;
                i
            },
            ColumnKind::Instance => {
                let i = self.num_instance;
                self.num_instance = i + 1;
                i
            },
        };
        proof {
            let v = old(self)@;
            let w = v.with_column(kind);
            assert(self@ =~= w);
            assert forall|c: Column| #[trigger] w.equality.contains(c) implies w.owns(c) by {
                assert(v.equality.contains(c));
                assert(v.owns(c));
            }
            assert forall|i: int| 0 <= i < w.gates.len() implies expr_wf(
                #[trigger] w.gates[i].expression,
                w,
            ) by {
                lemma_expr_wf_monotone(v.gates[i].expression, v, w);
            }
        }
        Column { kind, index }
    }

    /// Allocates a new advice (witness) column.
    pub fn advice_column(&mut self) -> (r: Column)
        requires
            old(self)@.wf(),
            old(self)@.num_advice < usize::MAX,
        ensures
            final(self)@ == old(self)@.with_column(ColumnKind::Advice),
            final(self)@.wf(),
            r == (Column { kind: ColumnKind::Advice, index: old(self)@.num_advice as usize }),
    {
        self.allocate_column(ColumnKind::Advice)
    }

    /// Allocates a new fixed (circuit-constant) column.
    pub fn fixed_column(&mut self) -> (r: Column)
        requires
            old(self)@.wf(),
            old(self)@.num_fixed < usize::MAX,
        ensures
            final(self)@ == old(self)@.with_column(ColumnKind::Fixed),
            final(self)@.wf(),
            r == (Column { kind: ColumnKind::Fixed, index: old(self)@.num_fixed as usize }),
    {
        self.allocate_column(ColumnKind::Fixed)
    }

    /// Allocates a new instance (public-input) column.
    pub fn instance_column(&mut self) -> (r: Column)
        requires
            old(self)@.wf(),
            old(self)@.num_instance < usize::MAX,
        ensures
            final(self)@ == old(self)@.with_column(ColumnKind::Instance),
            final(self)@.wf(),
            r == (Column { kind: ColumnKind::Instance, index: old(self)@.num_instance as usize }),
    {
        self.allocate_column(ColumnKind::Instance)
    }

    /// Whether `column` was allocated by this system.
    pub fn has_column(&self, column: Column) -> (r: bool)
        ensures
            r == self@.owns(column),
    {
        let count = match column.kind {
            ColumnKind::Advice => self.num_advice,
            ColumnKind::Fixed => self.num_fixed,
            ColumnKind::Instance => self.num_instance,
        };
        column.index < count
    }

    /// Whether equality constraints are enabled on `column`.
    pub fn is_equality_enabled(&self, column: Column) -> (r: bool)
        ensures
            r == self@.equality.contains(column),
    {
        let mut i: usize = 0;
        while i < self.equality.len()
            invariant
                i <= self.equality@.len(),
                forall|j: int| 0 <= j < i ==> self.equality@[j] != column,
            decreases self.equality@.len() - i,
        {
            if self.equality[i] == column {
                proof {
                    assert(self.equality@.contains(column));
                }
                return true;
            }
            i = i + 1;
        }
        false
    }

    /// Enables equality (copy) constraints on `column`. Idempotent: an
    /// already-enabled column leaves the equality set unchanged. A column
    /// the system never allocated is rejected and nothing changes.
    pub fn enable_equality(&mut self, column: Column) -> (r: Result<(), ConfigError>)
        requires
            old(self)@.wf(),
        ensures
            old(self)@.owns(column) ==> r == Ok::<(), ConfigError>(()) && final(self)@ == old(
                self,
            )@.with_equality(column),
            !old(self)@.owns(column) ==> r == Err::<(), ConfigError>(
                ConfigError::ColumnNotInSystem,
            ) && final(self)@ == old(self)@,
            final(self)@.wf(),
    {
        if !self.has_column(column) {
            return Err(ConfigError::ColumnNotInSystem);
        }
        if !self.is_equality_enabled(column) {
            self.equality.push(column);
            proof {
                let sq = old(self).equality@;
                let v = old(self)@;
                let w = v.with_equality(column);
                Seq::<Column>::lemma_to_set_insert_commutes(sq, column);
                assert(sq.push(column) =~= sq + seq![column]);
                assert(self@.equality =~= w.equality);
                assert(self@ =~= w);
                assert forall|c: Column| #[trigger] w.equality.contains(c) implies w.owns(c) by {
                    if c != column {
                        assert(v.equality.contains(c));
                        assert(v.owns(c));
                    }
                }
                assert forall|i: int| 0 <= i < w.gates.len() implies expr_wf(
                    #[trigger] w.gates[i].expression,
                    w,
                ) by {
                    lemma_expr_wf_monotone(v.gates[i].expression, v, w);
                }
            }
        } else {
            proof {
                assert(self@.equality.insert(column) =~= self@.equality);
                assert(self@ =~= old(self)@.with_equality(column));
                assert(self@ == old(self)@);
            }
        }
        Ok(())
    }

    /// Whether every query of `expression` reads a column this system
    /// allocated.
    pub fn expression_valid(&self, expression: &Expression) -> (r: bool)
        ensures
            r == expr_wf(*expression, self@),
        decreases *expression,
    {
        match expression {
            Expression::Constant(_) => true,
            Expression::Query(q) => self.has_column(q.column),
            Expression::Negated(x) => self.expression_valid(x),
            Expression::Sum(x, y) => {
                let a = self.expression_valid(x);
                let b = self.expression_valid(y);
                a && b
            },
            Expression::Product(x, y) => {
                let a = self.expression_valid(x);
                let b = self.expression_valid(y);
                a && b
            },
            Expression::Scaled(x, _) => self.expression_valid(x),
        }
    }

    /// Builds the query expression reading `column`, which must be of
    /// `kind`, at offset `rotation`. A handle of another kind, or one this
    /// system never allocated, is a configuration error caught here, at
    /// build time.
    pub fn query(&self, kind: ColumnKind, column: Column, rotation: Rotation) -> (r: Result<
        Expression,
        ConfigError,
    >)
        ensures
            column.kind != kind ==> r == Err::<Expression, ConfigError>(
                ConfigError::WrongColumnKind,
            ),
            column.kind == kind && !self@.owns(column) ==> r == Err::<Expression, ConfigError>(
                ConfigError::ColumnNotInSystem,
            ),
            column.kind == kind && self@.owns(column) ==> r == Ok::<Expression, ConfigError>(
                Expression::Query(Query { column, rotation }),
            ),
    {
        if column.kind != kind {
            Err(ConfigError::WrongColumnKind)
        } else if !self.has_column(column) {
            Err(ConfigError::ColumnNotInSystem)
        } else {
            Ok(Expression::Query(Query { column, rotation }))
        }
    }

    /// Builds a query of an advice column at `rotation`.
    pub fn query_advice(&self, column: Column, rotation: Rotation) -> (r: Result<
        Expression,
        ConfigError,
    >)
        ensures
            r == self.query_result(ColumnKind::Advice, column, rotation),
    {
        self.query(ColumnKind::Advice, column, rotation)
    }

    /// Builds a query of a fixed column at `rotation`.
    pub fn query_fixed(&self, column: Column, rotation: Rotation) -> (r: Result<
        Expression,
        ConfigError,
    >)
        ensures
            r == self.query_result(ColumnKind::Fixed, column, rotation),
    {
        self.query(ColumnKind::Fixed, column, rotation)
    }

    /// Builds a query of an instance column at `rotation`.
    pub fn query_instance(&self, column: Column, rotation: Rotation) -> (r: Result<
        Expression,
        ConfigError,
    >)
        ensures
            r == self.query_result(ColumnKind::Instance, column, rotation),
    {
        self.query(ColumnKind::Instance, column, rotation)
    }

    /// What a query of `column` as a column of `kind` returns.
    pub open spec fn query_result(self, kind: ColumnKind, column: Column, rotation: Rotation) -> Result<
        Expression,
        ConfigError,
    > {
        if column.kind != kind {
            Err(ConfigError::WrongColumnKind)
        } else if !self@.owns(column) {
            Err(ConfigError::ColumnNotInSystem)
        } else {
            Ok(Expression::Query(Query { column, rotation }))
        }
    }

    /// Registers one gate named `name` per expression of `constraints`, in
    /// order. A builder that produced no expressions registers no gate. If
    /// any expression queries a column this system never allocated, the
    /// whole registration is rejected at build time and the system is left
    /// unchanged: no malformed gate is ever stored.
    pub fn create_gate(&mut self, name: String, constraints: Vec<Expression>) -> (r: Result<
        (),
        ConfigError,
    >)
        requires
            old(self)@.wf(),
        ensures
            (forall|i: int| 0 <= i < constraints@.len() ==> expr_wf(#[trigger] constraints@[i], old(self)@))
                ==> r == Ok::<(), ConfigError>(()) && final(self)@ == old(self)@.with_gates(
                name@,
                constraints@,
            ),
            (exists|i: int| 0 <= i < constraints@.len() && !expr_wf(#[trigger] constraints@[i], old(self)@))
                ==> r == Err::<(), ConfigError>(ConfigError::ColumnNotInSystem) && final(self)@
                == old(self)@,
            final(self)@.wf(),
    {
        let mut i: usize = 0;
        while i < constraints.len()
            invariant
                i <= constraints@.len(),
                forall|j: int| 0 <= j < i ==> expr_wf(#[trigger] constraints@[j], self@),
                *self == *old(self),
                old(self)@.wf(),
            decreases constraints@.len() - i,
        {
            if !self.expression_valid(&constraints[i]) {
                proof {
                    assert(self@ == old(self)@);
                }
                return Err(ConfigError::ColumnNotInSystem);
            }
            i = i + 1;
        }
        let ghost orig = constraints@;
        let ghost v0 = self@;
        let mut rest = constraints;
        let mut done: usize = 0;
        while rest.len() > 0
            invariant
                v0 == old(self)@,
                v0.wf(),
                orig.len() <= usize::MAX,
                done + rest@.len() == orig.len(),
                rest@ == orig.skip(done as int),
                forall|j: int| 0 <= j < orig.len() ==> expr_wf(#[trigger] orig[j], v0),
                self@ == (CsView {
                    gates: v0.gates + as_gates(name@, orig.take(done as int)),
                    ..v0
                }),
            decreases rest@.len(),
        {
            let e = rest.remove(0);
            let gate_name = name.clone();
            proof {
                assert(rest@ =~= orig.skip(done as int + 1));
                assert(e == orig[done as int]);
            }
            let ghost gs0 = self.gates@;
            let ghost g = Gate { name: gate_name, expression: e };
            self.gates.push(Gate { name: gate_name, expression: e });
            proof {
                let prev = orig.take(done as int);
                let now = orig.take(done as int + 1);
                assert(self.gates@ == gs0.push(g));
                assert(g@ == GateView { name: name@, expression: e });
                assert(now =~= prev.push(e));
                assert(as_gates(name@, now) =~= as_gates(name@, prev).push(g@));
                assert(self@.gates =~= gs0.map(|i: int, gg: Gate| gg@).push(g@));
                assert(gs0.map(|i: int, gg: Gate| gg@) == v0.gates + as_gates(name@, prev));
                assert(self@.gates =~= v0.gates + as_gates(name@, now));
                assert(self@ =~= (CsView { gates: v0.gates + as_gates(name@, now), ..v0 }));
            }
            done = done + 1;
        }
        proof {
            let v = old(self)@;
            let w = v.with_gates(name@, orig);
            assert(orig.take(done as int) =~= orig);
            assert(self@ =~= w);
            assert forall|c: Column| #[trigger] w.equality.contains(c) implies w.owns(c) by {
                assert(v.equality.contains(c));
                assert(v.owns(c));
            }
            assert forall|i2: int| 0 <= i2 < w.gates.len() implies expr_wf(
                #[trigger] w.gates[i2].expression,
                w,
            ) by {
                if i2 < v.gates.len() {
                    assert(w.gates[i2] == v.gates[i2]);
                    lemma_expr_wf_monotone(v.gates[i2].expression, v, w);
                } else {
                    assert(w.gates[i2] == as_gates(name@, orig)[i2 - v.gates.len()]);
                    lemma_expr_wf_monotone(orig[i2 - v.gates.len()], v, w);
                }
            }
        }
        Ok(())
    }

    /// How many advice columns have been allocated.
    pub fn num_advice_columns(&self) -> (r: usize)
        ensures
            r as nat == self@.num_advice,
    {
        self.num_advice
    }

    /// How many fixed columns have been allocated.
    pub fn num_fixed_columns(&self) -> (r: usize)
        ensures
            r as nat == self@.num_fixed,
    {
        self.num_fixed
    }

    /// How many instance columns have been allocated.
    pub fn num_instance_columns(&self) -> (r: usize)
        ensures
            r as nat == self@.num_instance,
    {
        self.num_instance
    }

    /// How many gates have been registered.
    pub fn num_gates(&self) -> (r: usize)
        ensures
            r as nat == self@.gates.len(),
    {
        self.gates.len()
    }

    /// The `index`-th registered gate, in registration order.
    pub fn gate(&self, index: usize) -> (r: &Gate)
        requires
            index < self@.gates.len(),
        ensures
            r@ == self@.gates[index as int],
    {
        &self.gates[index]
    }
}

} // verus!
