//! Algebraic expressions over column queries, and their evaluation.
//!
//! An expression is an immutable tree built from field constants and column
//! queries, combined by negation, sum, product and scaling. A gate requires
//! its expression to evaluate to the field zero on every row where that
//! gate is active. Evaluation is a pure fold: a query reads the field value of
//! its column at the constrained row shifted by the query's rotation, and
//! fails only when that shifted row or the column lies outside the supplied
//! row data.

use vstd::prelude::*;

use crate::column::{Column, ColumnKind, Rotation};
use crate::field::{add_mod, mul_mod, neg_mod, Fp};

verus! {

/// A reference to one column's value at a row offset from the constrained
/// row. Queries are the only way an expression reads data.
#[derive(Clone, Copy, PartialEq, Eq, Structural, Hash, Debug)]
pub struct Query {
    /// The column whose value is read.
    pub column: Column,
    /// The row offset at which it is read.
    pub rotation: Rotation,
}

/// Per-row field values for every column of a circuit, the row-data source
/// an expression is evaluated against. The outer index of each table is a
/// column index within its kind, the inner index a row.
pub struct Assignment {
    /// Rows of each advice column.
    pub advice: Vec<Vec<Fp>>,
    /// Rows of each fixed column.
    pub fixed: Vec<Vec<Fp>>,
    /// Rows of each instance column.
    pub instance: Vec<Vec<Fp>>,
}

impl Assignment {
    /// The table of the given kind, as a sequence of columns.
    pub open spec fn table(self, kind: ColumnKind) -> Seq<Vec<Fp>> {
        match kind {
            ColumnKind::Advice => self.advice@,
            ColumnKind::Fixed => self.fixed@,
            ColumnKind::Instance => self.instance@,
        }
    }
}

/// The residue a query yields against `asg` when constraining `row`, or
/// `None` when the column or the shifted row lies outside the row data.
pub open spec fn query_value(q: Query, asg: Assignment, row: int) -> Option<nat> {
    let cols = asg.table(q.column.kind);
    let target = row + q.rotation.offset;
    if q.column.index < cols.len() && 0 <= target && target < cols[q.column.index as int]@.len() {
        Some(cols[q.column.index as int]@[target].as_nat())
    } else {
        None
    }
}

/// The residue an optional field element stands for.
pub open spec fn value_of(r: Option<Fp>) -> Option<nat> {
    match r {
        Some(v) => Some(v.as_nat()),
        None => None,
    }
}

/// An algebraic expression over column queries: the polynomial identity a
/// gate constrains to zero. Expressions are pure values; building a new one
/// never mutates its subexpressions.
#[derive(PartialEq, Eq, Debug)]
pub enum Expression {
    /// A field constant.
    Constant(Fp),
    /// The value of a column at a row offset.
    Query(Query),
    /// The additive inverse of a subexpression.
    Negated(Box<Expression>),
    /// The sum of two subexpressions.
    Sum(Box<Expression>, Box<Expression>),
    /// The product of two subexpressions.
    Product(Box<Expression>, Box<Expression>),
    /// A subexpression scaled by a field constant.
    Scaled(Box<Expression>, Fp),
}

impl Expression {
    /// The residue this expression evaluates to against `asg` when
    /// constraining `row`, or `None` when some query of it leaves the row
    /// data. Evaluation is total: it fails only through a failing query.
    pub open spec fn eval_spec(self, asg: Assignment, row: int) -> Option<nat>
        decreases self,
    {
        match self {
            Expression::Constant(c) => Some(c.as_nat()),
            Expression::Query(q) => query_value(q, asg, row),
            Expression::Negated(x) => match x.eval_spec(asg, row) {
                Some(v) => Some(neg_mod(v)),
                None => None,
            },
            Expression::Sum(x, y) => match (x.eval_spec(asg, row), y.eval_spec(asg, row)) {
                (Some(a), Some(b)) => Some(add_mod(a, b)),
                _ => None,
            },
            Expression::Product(x, y) => match (x.eval_spec(asg, row), y.eval_spec(asg, row)) {
                (Some(a), Some(b)) => Some(mul_mod(a, b)),
                _ => None,
            },
            Expression::Scaled(x, c) => match x.eval_spec(asg, row) {
                Some(v) => Some(mul_mod(v, c.as_nat())),
                None => None,
            },
        }
    }

    /// A constant expression.
    pub fn constant(c: Fp) -> (r: Expression)
        ensures
            r == Expression::Constant(c),
    {
        Expression::Constant(c)
    }

    /// A query expression reading `column` at offset `rotation`.
    pub fn query(column: Column, rotation: Rotation) -> (r: Expression)
        ensures
            r == Expression::Query(Query { column, rotation }),
    {
        Expression::Query(Query { column, rotation })
    }

    /// The additive inverse of `self`.
    pub fn negated(self) -> (r: Expression)
        ensures
            r == Expression::Negated(Box::new(self)),
    {
        Expression::Negated(Box::new(self))
    }

    /// The sum `self + other`.
    pub fn sum(self, other: Expression) -> (r: Expression)
        ensures
            r == Expression::Sum(Box::new(self), Box::new(other)),
    {
        Expression::Sum(Box::new(self), Box::new(other))
    }

    /// The product `self * other`.
    pub fn product(self, other: Expression) -> (r: Expression)
        ensures
            r == Expression::Product(Box::new(self), Box::new(other)),
    {
        Expression::Product(Box::new(self), Box::new(other))
    }

    /// `self` scaled by the constant `c`.
    pub fn scaled(self, c: Fp) -> (r: Expression)
        ensures
            r == Expression::Scaled(Box::new(self), c),
    {
        Expression::Scaled(Box::new(self), c)
    }

    /// Evaluates the expression against `asg` at the constrained row `row`,
    /// returning `None` exactly when a query of it leaves the row data.
    pub fn eval(&self, asg: &Assignment, row: usize) -> (r: Option<Fp>)
        ensures
            value_of(r) == self.eval_spec(*asg, row as int),
        decreases *self,
    {
        match self {
            Expression::Constant(c) => Some(*c),
            Expression::Query(q) => query_value_at(q, asg, row),
            Expression::Negated(x) => match x.eval(asg, row) {
                Some(v) => Some(v.neg()),
                None => None,
            },
            Expression::Sum(x, y) => match (x.eval(asg, row), y.eval(asg, row)) {
                (Some(a), Some(b)) => Some(a.add(b)),
                _ => None,
            },
            Expression::Product(x, y) => match (x.eval(asg, row), y.eval(asg, row)) {
                (Some(a), Some(b)) => Some(a.mul(b)),
                _ => None,
            },
            Expression::Scaled(x, c) => match x.eval(asg, row) {
                Some(v) => Some(v.mul(*c)),
                None => None,
            },
        }
    }
}

/// Looks up the value a query reads against `asg` when constraining `row`.
fn query_value_at(q: &Query, asg: &Assignment, row: usize) -> (r: Option<Fp>)
    ensures
        value_of(r) == query_value(*q, *asg, row as int),
{
    let cols: &Vec<Vec<Fp>> = match q.column.kind {
        ColumnKind::Advice => &asg.advice,
        ColumnKind::Fixed => &asg.fixed,
        ColumnKind::Instance => &asg.instance,
    };
    if q.column.index < cols.len() {
        let target: i128 = row as i128 + q.rotation.offset as i128;
        let col: &Vec<Fp> = &cols[q.column.index];
        if 0 <= target && target < col.len() as i128 {
            Some(col[target as usize])
        } else {
            None
        }
    } else {
        None
    }
}

} // verus!
