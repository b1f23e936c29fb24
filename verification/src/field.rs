//! Prime-field arithmetic for expression evaluation.
//!
//! Gate expressions are evaluated per row to an element of a prime field.
//! The field here is the integers modulo the Mersenne prime `2^31 - 1`,
//! small enough that every sum and product of two reduced elements fits in
//! a `u64` before reduction.

use vstd::prelude::*;

verus! {

/// The prime modulus of the field: the Mersenne prime `2^31 - 1`.
pub const FIELD_MODULUS: u64 = 2147483647;

/// The modulus as a mathematical natural number.
pub open spec fn modulus() -> nat {
    FIELD_MODULUS as nat
}

/// Sum of two residues, reduced.
pub open spec fn add_mod(a: nat, b: nat) -> nat {
    (a + b) % modulus()
}

/// Product of two residues, reduced.
pub open spec fn mul_mod(a: nat, b: nat) -> nat {
    (a * b) % modulus()
}

/// Additive inverse of a residue `a < modulus()`.
pub open spec fn neg_mod(a: nat) -> nat {
    (modulus() - a) as nat % modulus()
}

/// An element of the prime field: a residue strictly below [`FIELD_MODULUS`].
#[derive(Clone, Copy, PartialEq, Eq, Hash, Debug)]
pub struct Fp {
    value: u64,
}

impl Fp {
    /// The residue this element stands for.
    pub closed spec fn as_nat(self) -> nat {
        self.value as nat
    }

    #[verifier::type_invariant]
    spec fn reduced(self) -> bool {
        self.as_nat() < modulus()
    }

    /// The additive identity.
    pub fn zero() -> (r: Fp)
        ensures
            r.as_nat() == 0,
    {
        Fp { value: 0 }
    }

    /// The multiplicative identity.
    pub fn one() -> (r: Fp)
        ensures
            r.as_nat() == 1,
    {
        Fp { value: 1 }
    }

    /// The element standing for `x`, reduced modulo the field size.
    pub fn from_u64(x: u64) -> (r: Fp)
        ensures
            r.as_nat() == x as nat % modulus(),
    {
        Fp { value: x % FIELD_MODULUS }
    }

    /// The residue as a machine integer.
    pub fn to_u64(self) -> (r: u64)
        ensures
            r as nat == self.as_nat(),
            r < FIELD_MODULUS,
    {
        proof {
            use_type_invariant(&self);
        }
        self.value
    }

    /// Field addition.
    pub fn add(self, other: Fp) -> (r: Fp)
        ensures
            r.as_nat() == add_mod(self.as_nat(), other.as_nat()),
    {
        proof {
            use_type_invariant(&self);
            use_type_invariant(&other);
        }
        Fp { value: (self.value + other.value) % FIELD_MODULUS }
    }

    /// Field multiplication.
    pub fn mul(self, other: Fp) -> (r: Fp)
        ensures
            r.as_nat() == mul_mod(self.as_nat(), other.as_nat()),
    {
        proof {
            use_type_invariant(&self);
            use_type_invariant(&other);
            assert(self.value * other.value <= (FIELD_MODULUS - 1) * (FIELD_MODULUS - 1))
                by (nonlinear_arith)
                requires
                    self.value < FIELD_MODULUS,
                    other.value < FIELD_MODULUS,
            ;
        }
        Fp { value: (self.value * other.value) % FIELD_MODULUS }
    }

    /// Field negation: the element that sums with `self` to zero.
    pub fn neg(self) -> (r: Fp)
        ensures
            r.as_nat() == neg_mod(self.as_nat()),
    {
        proof {
            use_type_invariant(&self);
        }
        Fp { value: (FIELD_MODULUS - self.value) % FIELD_MODULUS }
    }
}

} // verus!
