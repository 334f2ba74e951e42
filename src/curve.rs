//! Group facts about the twisted Edwards curve over the BN254 scalar field,
//! taken from arkworks' description of the same curve. arkworks writes it with
//! `a = 1`; a point `(x, y)` of the form `168700 x^2 + y^2 = 1 + 168696 x^2 y^2`
//! is the point `(x * sqrt(168700), y)` there.
use vstd::prelude::*;

use ark_ed_on_bn254::{EdwardsAffine, Fq, Fr as ScalarField};
use ark_ff::{BigInt, PrimeField};

use crate::field::{limbs_val, modulus};

verus! {

/// The order of the curve's prime-order subgroup.
pub open spec fn subgroup_order() -> int {
    limbs_val([0x677297dc392126f1u64, 0xab3eedb83920ee0au64, 0x370a08b6d0302b0bu64, 0x060c89ce5c263405u64])
}

/// Whether the point `(x, y)` of arkworks' form of the curve lies in the
/// prime-order subgroup.
pub uninterp spec fn in_prime_subgroup(x: int, y: int) -> bool;

/// Relies on `Affine::is_in_correct_subgroup_assuming_on_curve` of
/// ark-ed-on-bn254, which tests that the subgroup order times the point is the
/// identity; the identity `(0, 1)` passes.
#[verifier::external_body]
pub(crate) fn ed_in_subgroup(x: [u64; 4], y: [u64; 4]) -> (r: bool)
    requires
        limbs_val(x) < modulus(),
        limbs_val(y) < modulus(),
    ensures
        r == in_prime_subgroup(limbs_val(x), limbs_val(y)),
        limbs_val(x) == 0 && limbs_val(y) == 1 ==> r,
{
    let px = Fq::from_bigint(BigInt::new(x)).unwrap();
    let py = Fq::from_bigint(BigInt::new(y)).unwrap();
    EdwardsAffine::new_unchecked(px, py).is_in_correct_subgroup_assuming_on_curve()
}

/// Relies on `PrimeField::from_bigint` for ark-ed-on-bn254's scalar field,
/// which returns `None` exactly when the integer is at least the subgroup
/// order.
#[verifier::external_body]
pub(crate) fn ed_scalar_in_range(l: [u64; 4]) -> (r: bool)
    ensures
        r == (limbs_val(l) < subgroup_order()),
{
    ScalarField::from_bigint(BigInt::new(l)).is_some()
}

} // verus!
