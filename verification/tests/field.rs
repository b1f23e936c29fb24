use plonk_config::field::{Fp, FIELD_MODULUS};

#[test]
fn zero_and_one_are_distinct_residues() {
    assert_eq!(Fp::zero().to_u64(), 0);
    assert_eq!(Fp::one().to_u64(), 1);
    assert_ne!(Fp::zero(), Fp::one());
}

#[test]
fn from_u64_reduces_modulo_field_size() {
    assert_eq!(Fp::from_u64(FIELD_MODULUS).to_u64(), 0);
    assert_eq!(Fp::from_u64(FIELD_MODULUS + 7).to_u64(), 7);
    assert_eq!(Fp::from_u64(5).to_u64(), 5);
}

#[test]
fn addition_wraps_at_the_modulus() {
    let almost = Fp::from_u64(FIELD_MODULUS - 1);
    assert_eq!(almost.add(Fp::from_u64(2)).to_u64(), 1);
    assert_eq!(Fp::from_u64(20).add(Fp::from_u64(22)).to_u64(), 42);
}

#[test]
fn multiplication_wraps_at_the_modulus() {
    // (p - 1) * (p - 1) = p^2 - 2p + 1 = 1 (mod p)
    let minus_one = Fp::from_u64(FIELD_MODULUS - 1);
    assert_eq!(minus_one.mul(minus_one).to_u64(), 1);
    assert_eq!(Fp::from_u64(6).mul(Fp::from_u64(7)).to_u64(), 42);
}

#[test]
fn negation_gives_the_additive_inverse() {
    assert_eq!(Fp::zero().neg().to_u64(), 0);
    assert_eq!(Fp::from_u64(5).neg().to_u64(), FIELD_MODULUS - 5);
    let x = Fp::from_u64(123456);
    assert_eq!(x.add(x.neg()).to_u64(), 0);
}
