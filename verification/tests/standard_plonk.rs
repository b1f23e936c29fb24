use plonk_config::circuit::Circuit;
use plonk_config::column::{Column, ColumnKind};
use plonk_config::constraint_system::ConstraintSystem;
use plonk_config::expression::Assignment;
use plonk_config::field::Fp;
use plonk_config::standard_plonk::StandardPlonk;

fn configured() -> ConstraintSystem {
    let mut cs = ConstraintSystem::new();
    let _cfg: () = <StandardPlonk as Circuit>::configure(&mut cs);
    cs
}

#[test]
fn configure_allocates_the_standard_columns() {
    let cs = configured();
    assert_eq!(cs.num_advice_columns(), 3);
    assert_eq!(cs.num_fixed_columns(), 5);
    assert_eq!(cs.num_instance_columns(), 1);
    assert_eq!(cs.num_gates(), 1);
}

#[test]
fn configure_enables_equality_exactly_on_the_advice_columns() {
    let cs = configured();
    for index in 0..3 {
        assert!(cs.is_equality_enabled(Column { kind: ColumnKind::Advice, index }));
    }
    for index in 0..5 {
        assert!(!cs.is_equality_enabled(Column { kind: ColumnKind::Fixed, index }));
    }
    assert!(!cs.is_equality_enabled(Column { kind: ColumnKind::Instance, index: 0 }));
}

#[test]
fn the_standard_gate_carries_its_identity_as_name() {
    let cs = configured();
    assert_eq!(
        cs.gate(0).name.as_str(),
        "q_a·a + q_b·b + q_c·c + q_ab·a·b + constant + instance = 0"
    );
}

/// Row data for one row of the standard circuit: advice a, b, c; fixed
/// q_a, q_b, q_c, q_ab, constant; one instance value.
fn standard_row(advice: [Fp; 3], fixed: [Fp; 5], instance: Fp) -> Assignment {
    Assignment {
        advice: advice.into_iter().map(|v| vec![v]).collect(),
        fixed: fixed.into_iter().map(|v| vec![v]).collect(),
        instance: vec![vec![instance]],
    }
}

#[test]
fn standard_gate_vanishes_on_a_satisfying_row() {
    // a=2, b=3, c=0, q_a=1, q_b=1, q_c=0, q_ab=0, constant=0,
    // instance=-(a+b): 2 + 3 + 0 + 0 + 0 - 5 = 0.
    let cs = configured();
    let asg = standard_row(
        [Fp::from_u64(2), Fp::from_u64(3), Fp::zero()],
        [Fp::one(), Fp::one(), Fp::zero(), Fp::zero(), Fp::zero()],
        Fp::from_u64(5).neg(),
    );
    assert_eq!(cs.gate(0).expression.eval(&asg, 0), Some(Fp::zero()));
}

#[test]
fn standard_gate_vanishes_on_a_product_row() {
    // a=2, b=3, q_ab=1, constant=-6: 2*3 - 6 = 0.
    let cs = configured();
    let asg = standard_row(
        [Fp::from_u64(2), Fp::from_u64(3), Fp::zero()],
        [Fp::zero(), Fp::zero(), Fp::zero(), Fp::one(), Fp::from_u64(6).neg()],
        Fp::zero(),
    );
    assert_eq!(cs.gate(0).expression.eval(&asg, 0), Some(Fp::zero()));
}

#[test]
fn standard_gate_does_not_vanish_on_an_unsatisfying_row() {
    // a=2, b=3, q_a=1, everything else zero: the row sums to 2, not 0.
    let cs = configured();
    let asg = standard_row(
        [Fp::from_u64(2), Fp::from_u64(3), Fp::zero()],
        [Fp::one(), Fp::zero(), Fp::zero(), Fp::zero(), Fp::zero()],
        Fp::zero(),
    );
    assert_eq!(cs.gate(0).expression.eval(&asg, 0), Some(Fp::from_u64(2)));
}

#[test]
fn without_witnesses_returns_an_identical_instance() {
    let circuit = StandardPlonk;
    assert_eq!(circuit.without_witnesses(), circuit);
    assert_eq!(StandardPlonk::default(), StandardPlonk);
}

#[test]
fn without_witnesses_then_configure_matches_direct_configuration() {
    let direct = configured();
    let stripped = StandardPlonk.without_witnesses();
    let mut cs = ConstraintSystem::new();
    let _cfg: () = <StandardPlonk as Circuit>::configure(&mut cs);
    // `stripped` is the same stateless instance, and configure depends only
    // on the constraint system it is given: the two systems agree in every
    // observable part.
    assert_eq!(stripped, StandardPlonk);
    assert_eq!(cs.num_advice_columns(), direct.num_advice_columns());
    assert_eq!(cs.num_fixed_columns(), direct.num_fixed_columns());
    assert_eq!(cs.num_instance_columns(), direct.num_instance_columns());
    assert_eq!(cs.num_gates(), direct.num_gates());
    assert_eq!(cs.gate(0).name, direct.gate(0).name);
    assert_eq!(cs.gate(0).expression, direct.gate(0).expression);
    for index in 0..3 {
        let col = Column { kind: ColumnKind::Advice, index };
        assert_eq!(cs.is_equality_enabled(col), direct.is_equality_enabled(col));
    }
}

#[test]
fn configure_composes_with_prior_allocations() {
    let mut cs = ConstraintSystem::new();
    let earlier = cs.advice_column();
    let _cfg: () = <StandardPlonk as Circuit>::configure(&mut cs);
    assert_eq!(earlier.index, 0);
    assert_eq!(cs.num_advice_columns(), 4);
    // The circuit's own advice columns start after the earlier one.
    assert!(cs.is_equality_enabled(Column { kind: ColumnKind::Advice, index: 1 }));
    assert!(!cs.is_equality_enabled(earlier));
}
