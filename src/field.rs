//! Elements of the BN254 scalar field, the field in which the step circuit's
//! state and messages live, held as four little-endian 64-bit limbs.
use vstd::prelude::*;

use ark_bn254::Fr;
use ark_ff::{BigInt, BigInteger, PrimeField};

verus! {

/// The order of the BN254 scalar field.
pub open spec fn modulus() -> int {
    limbs_val([0x43e1f593f0000001u64, 0x2833e84879b97091u64, 0xb85045b68181585du64, 0x30644e72e131a029u64])
}

/// The integer that four little-endian 64-bit limbs spell.
pub open spec fn limbs_val(l: [u64; 4]) -> int {
    let b: int = 0x1_0000_0000_0000_0000;
    l@[0] as int + b * (l@[1] as int + b * (l@[2] as int + b * l@[3] as int))
}

/// Bit `i` (little-endian, `0 <= i < 256`) of four limbs.
pub open spec fn limb_bit(l: [u64; 4], i: int) -> bool {
    l@[i / 64] & (1u64 << ((i % 64) as u64)) != 0
}

/// A field element: its limbs spell an integer below the modulus when it is
/// well formed.
#[derive(Clone, Copy, Debug, PartialEq, Eq)]
pub struct Fe {
    pub limbs: [u64; 4],
}

impl Fe {
    pub open spec fn val(self) -> int {
        limbs_val(self.limbs)
    }

    pub open spec fn wf(self) -> bool {
        self.val() < modulus()
    }

    pub fn zero() -> (r: Fe)
        ensures
            r.wf(),
            r.val() == 0,
    {
        Fe { limbs: [0u64, 0u64, 0u64, 0u64] }
    }

    pub fn one() -> (r: Fe)
        ensures
            r.wf(),
            r.val() == 1,
    {
        Fe { limbs: [1u64, 0u64, 0u64, 0u64] }
    }

    /// The element that a machine integer stands for.
    pub fn from_u64(n: u64) -> (r: Fe)
        ensures
            r.wf(),
            r.val() == n as int,
    {
        Fe { limbs: [n, 0u64, 0u64, 0u64] }
    }

    /// Whether the limbs are the canonical form of a field element.
    pub fn is_canonical(&self) -> (r: bool)
        ensures
            r == self.wf(),
    {
        fr_limbs_in_range(self.limbs)
    }

    /// Whether two elements have the same limbs.
    pub fn same(&self, other: &Fe) -> (r: bool)
        ensures
            r == (self.val() == other.val()),
    {
        let r = self.limbs[0] == other.limbs[0] && self.limbs[1] == other.limbs[1]
            && self.limbs[2] == other.limbs[2] && self.limbs[3] == other.limbs[3];
        proof {
            if self.val() == other.val() {
                lemma_limbs_unique(self.limbs, other.limbs);
            }
        }
        r
    }

    /// Field multiplication.
    pub fn mul(&self, other: &Fe) -> (r: Fe)
        requires
            self.wf(),
            other.wf(),
        ensures
            r.wf(),
            r.val() == (self.val() * other.val()) % modulus(),
    {
        Fe { limbs: fr_mul_limbs(self.limbs, other.limbs) }
    }

    /// Field addition.
    pub fn add(&self, other: &Fe) -> (r: Fe)
        requires
            self.wf(),
            other.wf(),
        ensures
            r.wf(),
            r.val() == (self.val() + other.val()) % modulus(),
    {
        Fe { limbs: fr_add_limbs(self.limbs, other.limbs) }
    }
}

/// Four limbs spell one integer only.
proof fn lemma_limbs_unique(a: [u64; 4], b: [u64; 4])
    requires
        limbs_val(a) == limbs_val(b),
    ensures
        a@ == b@,
{
    let d: int = 0x1_0000_0000_0000_0000;
    let a2: int = a@[2] as int + d * a@[3] as int;
    let b2: int = b@[2] as int + d * b@[3] as int;
    let a1: int = a@[1] as int + d * a2;
    let b1: int = b@[1] as int + d * b2;
    vstd::arithmetic::div_mod::lemma_fundamental_div_mod_converse(limbs_val(a), d, a1, a@[0] as int);
    vstd::arithmetic::div_mod::lemma_fundamental_div_mod_converse(limbs_val(b), d, b1, b@[0] as int);
    vstd::arithmetic::div_mod::lemma_fundamental_div_mod_converse(a1, d, a2, a@[1] as int);
    vstd::arithmetic::div_mod::lemma_fundamental_div_mod_converse(b1, d, b2, b@[1] as int);
    vstd::arithmetic::div_mod::lemma_fundamental_div_mod_converse(a2, d, a@[3] as int, a@[2] as int);
    vstd::arithmetic::div_mod::lemma_fundamental_div_mod_converse(b2, d, b@[3] as int, b@[2] as int);
    assert(a@ =~= b@);
}

/// Relies on `PrimeField::from_bigint` for BN254's `Fr`, which returns `None`
/// exactly when the integer is at least the modulus.
#[verifier::external_body]
fn fr_limbs_in_range(l: [u64; 4]) -> (r: bool)
    ensures
        r == (limbs_val(l) < modulus()),
{
    Fr::from_bigint(BigInt::new(l)).is_some()
}

/// Relies on `Fr`'s `Add`, `from_bigint` and `into_bigint`: the limbs of the
/// canonical sum of two canonical elements.
#[verifier::external_body]
fn fr_add_limbs(a: [u64; 4], b: [u64; 4]) -> (r: [u64; 4])
    requires
        limbs_val(a) < modulus(),
        limbs_val(b) < modulus(),
    ensures
        limbs_val(r) == (limbs_val(a) + limbs_val(b)) % modulus(),
{
    let x = Fr::from_bigint(BigInt::new(a)).unwrap();
    let y = Fr::from_bigint(BigInt::new(b)).unwrap();
    (x + y).into_bigint().0
}

/// Relies on `Fr`'s `Mul`, `from_bigint` and `into_bigint`: the limbs of the
/// canonical product of two canonical elements.
#[verifier::external_body]
fn fr_mul_limbs(a: [u64; 4], b: [u64; 4]) -> (r: [u64; 4])
    requires
        limbs_val(a) < modulus(),
        limbs_val(b) < modulus(),
    ensures
        limbs_val(r) == (limbs_val(a) * limbs_val(b)) % modulus(),
{
    let x = Fr::from_bigint(BigInt::new(a)).unwrap();
    let y = Fr::from_bigint(BigInt::new(b)).unwrap();
    (x * y).into_bigint().0
}

/// Relies on `PrimeField::MODULUS_BIT_SIZE` for BN254's `Fr`: the modulus has
/// 254 bits.
#[verifier::external_body]
pub(crate) fn fr_bit_size() -> (r: usize)
    ensures
        r == 254,
{
    Fr::MODULUS_BIT_SIZE as usize
}

/// Relies on `BigInteger::to_bits_le` for `BigInt<4>`: every bit of the four
/// limbs, least significant first.
#[verifier::external_body]
pub(crate) fn bigint_bits_le(l: [u64; 4]) -> (r: Vec<bool>)
    ensures
        r@.len() == 256,
        forall|i: int| 0 <= i < 256 ==> r@[i] == limb_bit(l, i),
{
    BigInt::new(l).to_bits_le()
}

} // verus!
