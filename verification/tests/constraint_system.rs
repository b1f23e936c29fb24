use plonk_config::column::{Column, ColumnKind, Rotation};
use plonk_config::constraint_system::{ConfigError, ConstraintSystem};
use plonk_config::expression::Expression;
use plonk_config::field::Fp;

#[test]
fn column_indices_are_unique_and_increase_from_zero_per_kind() {
    let mut cs = ConstraintSystem::new();
    let a0 = cs.advice_column();
    let f0 = cs.fixed_column();
    let a1 = cs.advice_column();
    let i0 = cs.instance_column();
    let a2 = cs.advice_column();
    let f1 = cs.fixed_column();
    assert_eq!((a0.kind, a0.index), (ColumnKind::Advice, 0));
    assert_eq!((a1.kind, a1.index), (ColumnKind::Advice, 1));
    assert_eq!((a2.kind, a2.index), (ColumnKind::Advice, 2));
    assert_eq!((f0.kind, f0.index), (ColumnKind::Fixed, 0));
    assert_eq!((f1.kind, f1.index), (ColumnKind::Fixed, 1));
    assert_eq!((i0.kind, i0.index), (ColumnKind::Instance, 0));
    assert_eq!(cs.num_advice_columns(), 3);
    assert_eq!(cs.num_fixed_columns(), 2);
    assert_eq!(cs.num_instance_columns(), 1);
}

#[test]
fn has_column_tracks_allocation() {
    let mut cs = ConstraintSystem::new();
    let a = cs.advice_column();
    assert!(cs.has_column(a));
    assert!(!cs.has_column(Column { kind: ColumnKind::Advice, index: 1 }));
    assert!(!cs.has_column(Column { kind: ColumnKind::Fixed, index: 0 }));
}

#[test]
fn enable_equality_is_idempotent() {
    let mut cs = ConstraintSystem::new();
    let a = cs.advice_column();
    let b = cs.advice_column();
    assert_eq!(cs.enable_equality(a), Ok(()));
    assert_eq!(cs.enable_equality(a), Ok(()));
    assert!(cs.is_equality_enabled(a));
    assert!(!cs.is_equality_enabled(b));

    // The equality set after enabling twice equals the set after enabling
    // once: a second system with a single enablement agrees column by column.
    let mut once = ConstraintSystem::new();
    let a2 = once.advice_column();
    let b2 = once.advice_column();
    assert_eq!(once.enable_equality(a2), Ok(()));
    assert_eq!(cs.is_equality_enabled(a), once.is_equality_enabled(a2));
    assert_eq!(cs.is_equality_enabled(b), once.is_equality_enabled(b2));
}

#[test]
fn enable_equality_rejects_unknown_columns() {
    let mut cs = ConstraintSystem::new();
    let ghost_col = Column { kind: ColumnKind::Instance, index: 0 };
    assert_eq!(cs.enable_equality(ghost_col), Err(ConfigError::ColumnNotInSystem));
    assert!(!cs.is_equality_enabled(ghost_col));
}

#[test]
fn create_gate_rejects_queries_of_unknown_columns() {
    let mut cs = ConstraintSystem::new();
    let a = cs.advice_column();
    let good = Expression::query(a, Rotation::cur());
    let stranger = Column { kind: ColumnKind::Fixed, index: 0 };
    let bad = Expression::query(stranger, Rotation::cur());
    let r = cs.create_gate("mixed".to_string(), vec![good, bad]);
    assert_eq!(r, Err(ConfigError::ColumnNotInSystem));
    // Nothing was stored: no malformed gate exists.
    assert_eq!(cs.num_gates(), 0);
}

#[test]
fn create_gate_with_no_expressions_registers_no_gate() {
    let mut cs = ConstraintSystem::new();
    let r = cs.create_gate("empty".to_string(), Vec::new());
    assert_eq!(r, Ok(()));
    assert_eq!(cs.num_gates(), 0);
}

#[test]
fn create_gate_appends_one_gate_per_expression_in_order() {
    let mut cs = ConstraintSystem::new();
    let a = cs.advice_column();
    let b = cs.advice_column();
    let e1 = Expression::query(a, Rotation::cur());
    let e2 = Expression::query(b, Rotation::next());
    let r = cs.create_gate("pair".to_string(), vec![e1, e2]);
    assert_eq!(r, Ok(()));
    assert_eq!(cs.num_gates(), 2);
    assert_eq!(cs.gate(0).name.as_str(), "pair");
    assert_eq!(cs.gate(1).name.as_str(), "pair");
    assert_eq!(cs.gate(0).expression, Expression::query(a, Rotation::cur()));
    assert_eq!(cs.gate(1).expression, Expression::query(b, Rotation::next()));
}

#[test]
fn expression_valid_follows_column_ownership() {
    let mut cs = ConstraintSystem::new();
    let a = cs.advice_column();
    let owned = Expression::query(a, Rotation::prev());
    let unknown = Expression::query(Column { kind: ColumnKind::Advice, index: 7 }, Rotation::cur());
    let constant = Expression::constant(Fp::from_u64(9));
    assert!(cs.expression_valid(&owned));
    assert!(!cs.expression_valid(&unknown));
    assert!(cs.expression_valid(&constant));
    let mixed = owned.sum(unknown);
    assert!(!cs.expression_valid(&mixed));
}

#[test]
fn query_builds_the_expression_for_an_owned_column() {
    let mut cs = ConstraintSystem::new();
    let a = cs.advice_column();
    let f = cs.fixed_column();
    let i = cs.instance_column();
    assert_eq!(cs.query_advice(a, Rotation::cur()), Ok(Expression::query(a, Rotation::cur())));
    assert_eq!(cs.query_fixed(f, Rotation::prev()), Ok(Expression::query(f, Rotation::prev())));
    assert_eq!(cs.query_instance(i, Rotation::next()), Ok(Expression::query(i, Rotation::next())));
}

#[test]
fn query_rejects_a_column_the_system_never_allocated() {
    let cs = ConstraintSystem::new();
    let stray = Column { kind: ColumnKind::Advice, index: 0 };
    assert_eq!(cs.query_advice(stray, Rotation::cur()), Err(ConfigError::ColumnNotInSystem));
}

#[test]
fn query_rejects_a_handle_of_the_wrong_kind() {
    let mut cs = ConstraintSystem::new();
    let f = cs.fixed_column();
    assert_eq!(cs.query_advice(f, Rotation::cur()), Err(ConfigError::WrongColumnKind));
    assert_eq!(cs.query_instance(f, Rotation::cur()), Err(ConfigError::WrongColumnKind));
    assert_eq!(cs.query_fixed(f, Rotation::cur()), Ok(Expression::query(f, Rotation::cur())));
}
