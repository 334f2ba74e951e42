//! One step's signature data, natively and as circuit variables, and the
//! allocator that maps the first to the second.
use vstd::prelude::*;

use crate::curve::{ed_in_subgroup, ed_scalar_in_range, in_prime_subgroup, subgroup_order};
use crate::field::{bigint_bits_le, fr_bit_size, limb_bit, limbs_val, modulus, Fe};

verus! {

/// Width of every scalar's bit decomposition: the bit length of the field
/// that the circuit is written over.
pub open spec fn scalar_width() -> nat {
    254
}

/// A point of the twisted Edwards curve, in affine coordinates.
#[derive(Clone, Copy, Debug, PartialEq, Eq)]
pub struct Point {
    pub x: Fe,
    pub y: Fe,
}

/// The curve's coefficient `a` in `a x^2 + y^2 = 1 + d x^2 y^2`.
pub const CURVE_A: u64 = 168700;

/// The curve's coefficient `d` in `a x^2 + y^2 = 1 + d x^2 y^2`.
pub const CURVE_D: u64 = 168696;

/// A square root of `CURVE_A` in the field, which maps this form of the curve
/// to the form with `a = 1`.
pub open spec fn sqrt_a() -> int {
    limbs_val([0xefc605021164390bu64, 0x49072758c2a2322eu64, 0xd1411ffb5591babfu64, 0x0ff3234afb38a3f8u64])
}

/// `(x, y)` satisfies the twisted Edwards equation in the field.
pub open spec fn on_curve(x: int, y: int) -> bool {
    (CURVE_A * x * x + y * y) % modulus() == (1 + CURVE_D * x * x * y * y) % modulus()
}

impl Point {
    pub open spec fn wf(self) -> bool {
        self.x.wf() && self.y.wf()
    }

    /// Canonical coordinates of a point of the curve.
    pub open spec fn valid(self) -> bool {
        self.wf() && on_curve(self.x.val(), self.y.val())
    }

    /// The point lies in the curve's prime-order subgroup.
    pub open spec fn in_subgroup(self) -> bool {
        in_prime_subgroup((self.x.val() * sqrt_a()) % modulus(), self.y.val())
    }

    /// Whether the point is in the prime-order subgroup.
    pub fn is_in_subgroup(&self) -> (r: bool)
        requires
            self.wf(),
        ensures
            r == self.in_subgroup(),
            self.x.val() == 0 && self.y.val() == 1 ==> r,
    {
        let root = Fe { limbs: [0xefc605021164390bu64, 0x49072758c2a2322eu64, 0xd1411ffb5591babfu64, 0x0ff3234afb38a3f8u64] };
        assert(root.wf());
        let xs = self.x.mul(&root);
        proof {
            if self.x.val() == 0 {
                vstd::arithmetic::div_mod::lemma_small_mod(0nat, modulus() as nat);
            }
        }
        ed_in_subgroup(xs.limbs, self.y.limbs)
    }

    /// Whether the coordinates are canonical and satisfy the curve equation.
    pub fn is_valid(&self) -> (r: bool)
        ensures
            r == self.valid(),
    {
        if !(self.x.is_canonical() && self.y.is_canonical()) {
            return false;
        }
        let a = Fe::from_u64(CURVE_A);
        let d = Fe::from_u64(CURVE_D);
        let x2 = self.x.mul(&self.x);
        let y2 = self.y.mul(&self.y);
        let lhs = a.mul(&x2).add(&y2);
        let rhs = Fe::one().add(&d.mul(&x2.mul(&y2)));
        proof {
            lemma_curve_terms(self.x.val(), self.y.val());
        }
        lhs.same(&rhs)
    }

    /// The group identity, `(0, 1)` on a twisted Edwards curve.
    pub fn identity() -> (r: Point)
        ensures
            r.wf(),
            r.x.val() == 0,
            r.y.val() == 1,
            r.valid(),
            r.in_subgroup(),
    {
        let r = Point { x: Fe::zero(), y: Fe::one() };
        let member = r.is_in_subgroup();
        assert(member);
        r
    }
}

/// The two sides of the curve equation, reduced term by term.
proof fn lemma_curve_terms(x: int, y: int)
    ensures
        ((CURVE_A * ((x * x) % modulus())) % modulus() + (y * y) % modulus()) % modulus()
            == (CURVE_A * x * x + y * y) % modulus(),
        (1 + (CURVE_D * ((((x * x) % modulus()) * ((y * y) % modulus())) % modulus())) % modulus())
            % modulus() == (1 + CURVE_D * x * x * y * y) % modulus(),
{
    let p = modulus();
    let a = CURVE_A as int;
    let d = CURVE_D as int;
    vstd::arithmetic::div_mod::lemma_mul_mod_noop_right(a, x * x, p);
    assert(a * (x * x) == a * x * x) by (nonlinear_arith);
    vstd::arithmetic::div_mod::lemma_add_mod_noop(a * x * x, y * y, p);
    vstd::arithmetic::div_mod::lemma_mod_twice(a * x * x, p);
    vstd::arithmetic::div_mod::lemma_mod_twice(y * y, p);
    vstd::arithmetic::div_mod::lemma_mul_mod_noop(x * x, y * y, p);
    vstd::arithmetic::div_mod::lemma_mul_mod_noop_right(d, (x * x) * (y * y), p);
    assert(d * ((x * x) * (y * y)) == d * x * x * y * y) by (nonlinear_arith);
    vstd::arithmetic::div_mod::lemma_add_mod_noop_right(1, d * x * x * y * y, p);
}

/// A scalar of the curve's group, as four little-endian limbs.
#[derive(Clone, Copy, Debug, PartialEq, Eq)]
pub struct Scalar {
    pub limbs: [u64; 4],
}

impl Scalar {
    /// The scalar is below the order of the curve's prime-order subgroup.
    pub open spec fn in_range(self) -> bool {
        limbs_val(self.limbs) < subgroup_order()
    }

    /// Whether the scalar is below the subgroup order.
    pub fn is_in_range(&self) -> (r: bool)
        ensures
            r == self.in_range(),
    {
        ed_scalar_in_range(self.limbs)
    }

    /// The scalar's bits, least significant first.
    pub open spec fn bits(self, n: nat) -> Seq<bool> {
        Seq::new(n, |i: int| limb_bit(self.limbs, i))
    }

    /// No bit at or above the fixed width is set.
    pub open spec fn fits(self) -> bool {
        forall|i: int| scalar_width() <= i < 256 ==> !limb_bit(self.limbs, i)
    }
}

/// An EdDSA signature `(r, s)`.
#[derive(Clone, Copy, Debug, PartialEq, Eq)]
pub struct Signature {
    pub r: Point,
    pub s: Scalar,
}

/// One entry of a batch: a message, the signer's public key and the signature.
#[derive(Clone, Copy, Debug, PartialEq, Eq)]
pub struct ExtInp {
    pub msg: Fe,
    pub pk: Point,
    pub sig: Signature,
}

/// Why a native value could not be allocated.
#[derive(Clone, Copy, Debug, PartialEq, Eq)]
pub enum AllocationError {
    /// The batch does not hold exactly one entry per signature of the step.
    WrongBatchSize,
    /// A message or a coordinate is not a canonical field element, a point is
    /// not on the curve or not in its prime-order subgroup, or a scalar is not
    /// below the subgroup order.
    Malformed,
    /// A signature's scalar has a bit set at or above the fixed width.
    ScalarTooWide,
}

impl ExtInp {
    /// The placeholder entry: message zero, the identity as key, and the
    /// signature `(identity, 0)`.
    pub open spec fn is_identity(self) -> bool {
        &&& self.msg.val() == 0
        &&& self.pk.x.val() == 0 && self.pk.y.val() == 1
        &&& self.sig.r.x.val() == 0 && self.sig.r.y.val() == 1
        &&& self.sig.s.limbs@ == seq![0u64, 0u64, 0u64, 0u64]
    }

    /// What allocating this entry fails with, if anything: a malformed field
    /// element, a point off the curve or outside the prime-order subgroup is
    /// reported first, then a scalar wider than the fixed width, then a scalar
    /// not below the subgroup order.
    pub open spec fn alloc_error(self) -> Option<AllocationError> {
        if !(self.msg.wf() && self.pk.valid() && self.sig.r.valid() && self.pk.in_subgroup()
            && self.sig.r.in_subgroup()) {
            Some(AllocationError::Malformed)
        } else if !self.sig.s.fits() {
            Some(AllocationError::ScalarTooWide)
        } else if !self.sig.s.in_range() {
            Some(AllocationError::Malformed)
        } else {
            None
        }
    }

    /// The placeholder entry: message zero, the identity as key, and the
    /// signature `(identity, 0)`. It need not verify.
    pub fn identity() -> (r: ExtInp)
        ensures
            r.is_identity(),
            r.alloc_error() is None,
    {
        let id = Point::identity();
        let r = ExtInp {
            msg: Fe::zero(),
            pk: id,
            sig: Signature { r: id, s: Scalar { limbs: [0u64, 0u64, 0u64, 0u64] } },
        };
        proof {
            lemma_identity_allocatable(r);
        }
        r
    }
}

impl Default for ExtInp {
    fn default() -> (r: ExtInp)
        ensures
            r.is_identity(),
            r.alloc_error() is None,
    {
        ExtInp::identity()
    }
}

/// The width of a scalar's bit decomposition in the circuit.
pub fn scalar_bit_width() -> (r: usize)
    ensures
        r == scalar_width(),
{
    fr_bit_size()
}

/// The fixed-width little-endian bits of a scalar, or `ScalarTooWide` when a
/// bit at or above the width is set.
pub fn scalar_to_bits(s: &Scalar) -> (r: Result<Vec<bool>, AllocationError>)
    ensures
        match r {
            Ok(bits) => s.fits() && bits@ == s.bits(scalar_width()),
            Err(e) => !s.fits() && e == AllocationError::ScalarTooWide,
        },
{
    let width = scalar_bit_width();
    let all = bigint_bits_le(s.limbs);
    let mut k: usize = width;
    while k < 256
        invariant
            width == scalar_width(),
            width <= k <= 256,
            all@.len() == 256,
            forall|i: int| 0 <= i < 256 ==> all@[i] == limb_bit(s.limbs, i),
            forall|i: int| width <= i < k ==> !limb_bit(s.limbs, i),
        decreases 256 - k,
    {
        if all[k] {
            return Err(AllocationError::ScalarTooWide);
        }
        k = k + 1;
    }
    let mut bits: Vec<bool> = Vec::new();
    let mut j: usize = 0;
    while j < width
        invariant
            width == scalar_width(),
            j <= width,
            all@.len() == 256,
            forall|i: int| 0 <= i < 256 ==> all@[i] == limb_bit(s.limbs, i),
            bits@ == s.bits(j as nat),
        decreases width - j,
    {
        bits.push(all[j]);
        j = j + 1;
        assert(bits@ =~= s.bits(j as nat));
    }
    Ok(bits)
}

/// How a value enters the constraint system.
#[derive(Clone, Copy, Debug, PartialEq, Eq)]
pub enum AllocationMode {
    /// Fixed into the circuit's shape.
    Constant,
    /// A public input.
    Input,
    /// A private value that the prover supplies for this step.
    Witness,
}

/// A batch of `SIGS_PER_STEP` entries, consumed by one step.
#[derive(Clone, Debug)]
pub struct VecExtInp<const SIGS_PER_STEP: usize>(pub Vec<ExtInp>);

impl<const SIGS_PER_STEP: usize> VecExtInp<SIGS_PER_STEP> {
    /// The batch has `SIGS_PER_STEP` entries and each can be allocated.
    pub open spec fn alloc_ok(self) -> bool {
        self.0@.len() == SIGS_PER_STEP && forall|i: int|
            0 <= i < self.0@.len() ==> (#[trigger] self.0@[i]).alloc_error() is None
    }

    /// Every entry is the placeholder.
    pub open spec fn all_identity(self) -> bool {
        forall|i: int| 0 <= i < self.0@.len() ==> (#[trigger] self.0@[i]).is_identity()
    }

    /// `SIGS_PER_STEP` placeholder entries.
    pub fn default_batch() -> (r: Self)
        ensures
            r.0@.len() == SIGS_PER_STEP,
            r.all_identity(),
            r.alloc_ok(),
    {
        let e = ExtInp::identity();
        let mut v: Vec<ExtInp> = Vec::new();
        let mut k: usize = 0;
        while k < SIGS_PER_STEP
            invariant
                k <= SIGS_PER_STEP,
                v@.len() == k,
                e.is_identity(),
                e.alloc_error() is None,
                forall|i: int| 0 <= i < k ==> v@[i] == e,
            decreases SIGS_PER_STEP - k,
        {
            v.push(e);
            k = k + 1;
        }
        VecExtInp(v)
    }
}

impl<const SIGS_PER_STEP: usize> Default for VecExtInp<SIGS_PER_STEP> {
    fn default() -> (r: Self)
        ensures
            r.0@.len() == SIGS_PER_STEP,
            r.all_identity(),
            r.alloc_ok(),
    {
        Self::default_batch()
    }
}

/// One entry as circuit variables. Each variable carries the value assigned
/// to it; the scalar is a fixed-width little-endian bit sequence.
#[derive(Clone, Debug)]
pub struct ExtInpVar {
    pub msg: Fe,
    pub pk: Point,
    pub sig_r: Point,
    pub sig_s: Vec<bool>,
    pub mode: AllocationMode,
}

impl ExtInpVar {
    /// The variables hold exactly the entry's values, in the given mode.
    pub open spec fn allocated_from(self, e: ExtInp, mode: AllocationMode) -> bool {
        &&& self.msg == e.msg
        &&& self.pk == e.pk
        &&& self.sig_r == e.sig.r
        &&& self.sig_s@ == e.sig.s.bits(scalar_width())
        &&& self.mode == mode
    }

    /// Allocates one entry.
    pub fn new_variable(e: &ExtInp, mode: AllocationMode) -> (r: Result<ExtInpVar, AllocationError>)
        ensures
            match r {
                Ok(v) => e.alloc_error() is None && v.allocated_from(*e, mode),
                Err(err) => e.alloc_error() == Some(err),
            },
    {
        if !(e.msg.is_canonical() && e.pk.is_valid() && e.sig.r.is_valid()) {
            return Err(AllocationError::Malformed);
        }
        if !(e.pk.is_in_subgroup() && e.sig.r.is_in_subgroup()) {
            return Err(AllocationError::Malformed);
        }
        match scalar_to_bits(&e.sig.s) {
            Ok(bits) => {
                if !e.sig.s.is_in_range() {
                    return Err(AllocationError::Malformed);
                }
                Ok(ExtInpVar { msg: e.msg, pk: e.pk, sig_r: e.sig.r, sig_s: bits, mode })
            },
            Err(err) => Err(err),
        }
    }

    /// Constant placeholder variables for the placeholder entry, with a
    /// scalar of the same fixed width as every allocated one.
    pub fn identity() -> (r: ExtInpVar)
        ensures
            r.msg.val() == 0,
            r.pk.x.val() == 0 && r.pk.y.val() == 1,
            r.sig_r.x.val() == 0 && r.sig_r.y.val() == 1,
            r.sig_s@ == Seq::new(scalar_width(), |i: int| false),
            r.mode == AllocationMode::Constant,
    {
        let width = scalar_bit_width();
        let mut bits: Vec<bool> = Vec::new();
        let mut k: usize = 0;
        while k < width
            invariant
                width == scalar_width(),
                k <= width,
                bits@ == Seq::new(k as nat, |i: int| false),
            decreases width - k,
        {
            bits.push(false);
            k = k + 1;
            assert(bits@ =~= Seq::new(k as nat, |i: int| false));
        }
        ExtInpVar {
            msg: Fe::zero(),
            pk: Point::identity(),
            sig_r: Point::identity(),
            sig_s: bits,
            mode: AllocationMode::Constant,
        }
    }
}

impl Default for ExtInpVar {
    fn default() -> (r: ExtInpVar)
        ensures
            r.msg.val() == 0,
            r.pk.x.val() == 0 && r.pk.y.val() == 1,
            r.sig_r.x.val() == 0 && r.sig_r.y.val() == 1,
            r.sig_s@ == Seq::new(scalar_width(), |i: int| false),
            r.mode == AllocationMode::Constant,
    {
        ExtInpVar::identity()
    }
}

/// A batch as circuit variables.
#[derive(Clone, Debug)]
pub struct VecExtInpVar<const SIGS_PER_STEP: usize>(pub Vec<ExtInpVar>);

impl<const SIGS_PER_STEP: usize> VecExtInpVar<SIGS_PER_STEP> {
    /// The variables hold exactly the batch's values, entry by entry.
    pub open spec fn allocated_from(self, val: VecExtInp<SIGS_PER_STEP>, mode: AllocationMode) -> bool {
        &&& self.0@.len() == val.0@.len()
        &&& forall|i: int| 0 <= i < self.0@.len() ==> (#[trigger] self.0@[i]).allocated_from(val.0@[i], mode)
    }

    /// Every entry's scalar has the fixed width.
    pub open spec fn uniform_width(self) -> bool {
        forall|i: int| 0 <= i < self.0@.len() ==> (#[trigger] self.0@[i]).sig_s@.len() == scalar_width()
    }

    /// `SIGS_PER_STEP` constant placeholder entries.
    pub fn default_batch() -> (r: Self)
        ensures
            r.0@.len() == SIGS_PER_STEP,
            r.uniform_width(),
            forall|i: int| 0 <= i < SIGS_PER_STEP ==> (#[trigger] r.0@[i]).msg.val() == 0
                && r.0@[i].pk.x.val() == 0 && r.0@[i].pk.y.val() == 1
                && r.0@[i].sig_r.x.val() == 0 && r.0@[i].sig_r.y.val() == 1
                && r.0@[i].sig_s@ == Seq::new(scalar_width(), |j: int| false)
                && r.0@[i].mode == AllocationMode::Constant,
    {
        let mut v: Vec<ExtInpVar> = Vec::new();
        let mut k: usize = 0;
        while k < SIGS_PER_STEP
            invariant
                k <= SIGS_PER_STEP,
                v@.len() == k,
                forall|i: int| 0 <= i < k ==> (#[trigger] v@[i]).msg.val() == 0
                    && v@[i].pk.x.val() == 0 && v@[i].pk.y.val() == 1
                    && v@[i].sig_r.x.val() == 0 && v@[i].sig_r.y.val() == 1
                    && v@[i].sig_s@ == Seq::new(scalar_width(), |j: int| false)
                    && v@[i].mode == AllocationMode::Constant,
            decreases SIGS_PER_STEP - k,
        {
            v.push(ExtInpVar::identity());
            k = k + 1;
        }
        VecExtInpVar(v)
    }

    /// Allocates every entry of a batch in the given mode. Fails with
    /// `WrongBatchSize` when the batch does not hold `SIGS_PER_STEP` entries,
    /// else with the error of the first entry that cannot be allocated.
    pub fn new_variable(val: &VecExtInp<SIGS_PER_STEP>, mode: AllocationMode) -> (r: Result<Self, AllocationError>)
        ensures
            r is Ok <==> val.alloc_ok(),
            match r {
                Ok(vars) => val.alloc_ok() && vars.allocated_from(*val, mode) && vars.uniform_width(),
                Err(AllocationError::WrongBatchSize) => val.0@.len() != SIGS_PER_STEP,
                Err(err) => val.0@.len() == SIGS_PER_STEP && exists|i: int|
                    0 <= i < val.0@.len() && (#[trigger] val.0@[i]).alloc_error() == Some(err)
                        && forall|j: int| 0 <= j < i ==> (#[trigger] val.0@[j]).alloc_error() is None,
            },
    {
        if val.0.len() != SIGS_PER_STEP {
            return Err(AllocationError::WrongBatchSize);
        }
        let mut v: Vec<ExtInpVar> = Vec::new();
        let mut k: usize = 0;
        while k < val.0.len()
            invariant
                val.0@.len() == SIGS_PER_STEP,
                k <= val.0@.len(),
                v@.len() == k,
                forall|i: int| 0 <= i < k ==> (#[trigger] v@[i]).allocated_from(val.0@[i], mode),
                forall|j: int| 0 <= j < k ==> (#[trigger] val.0@[j]).alloc_error() is None,
            decreases val.0@.len() - k,
        {
            match ExtInpVar::new_variable(&val.0[k], mode) {
                Ok(e) => v.push(e),
                Err(err) => {
                    assert(val.0@[k as int].alloc_error() == Some(err));
                    return Err(err);
                },
            }
            k = k + 1;
        }
        let vars = VecExtInpVar(v);
        proof {
            lemma_allocated_uniform(vars, *val, mode);
        }
        Ok(vars)
    }
}

impl<const SIGS_PER_STEP: usize> Default for VecExtInpVar<SIGS_PER_STEP> {
    fn default() -> (r: Self)
        ensures
            r.0@.len() == SIGS_PER_STEP,
            r.uniform_width(),
            forall|i: int| 0 <= i < SIGS_PER_STEP ==> (#[trigger] r.0@[i]).msg.val() == 0
                && r.0@[i].pk.x.val() == 0 && r.0@[i].pk.y.val() == 1
                && r.0@[i].sig_r.x.val() == 0 && r.0@[i].sig_r.y.val() == 1
                && r.0@[i].sig_s@ == Seq::new(scalar_width(), |j: int| false)
                && r.0@[i].mode == AllocationMode::Constant,
    {
        Self::default_batch()
    }
}

/// The placeholder entry can always be allocated.
proof fn lemma_identity_allocatable(e: ExtInp)
    requires
        e.is_identity(),
        e.pk.in_subgroup(),
        e.sig.r.in_subgroup(),
    ensures
        e.alloc_error() is None,
{
    assert forall|i: int| scalar_width() <= i < 256 implies !limb_bit(e.sig.s.limbs, i) by {
        assert(e.sig.s.limbs@[i / 64] == 0u64);
        assert(0u64 & (1u64 << ((i % 64) as u64)) == 0u64) by (bit_vector);
    }
}

/// Allocated and placeholder batches alike, of any two batch sizes, give every
/// scalar the same number of bits.
pub proof fn lemma_uniform_scalar_width<const A: usize, const B: usize>(
    x: VecExtInpVar<A>,
    y: VecExtInpVar<B>,
    i: int,
    j: int,
)
    requires
        x.uniform_width(),
        y.uniform_width(),
        0 <= i < x.0@.len(),
        0 <= j < y.0@.len(),
    ensures
        x.0@[i].sig_s@.len() == y.0@[j].sig_s@.len(),
{
    assert(x.0@[i].sig_s@.len() == scalar_width());
    assert(y.0@[j].sig_s@.len() == scalar_width());
}

/// An allocated batch has the fixed scalar width in every entry.
pub proof fn lemma_allocated_uniform<const S: usize>(x: VecExtInpVar<S>, val: VecExtInp<S>, mode: AllocationMode)
    requires
        x.allocated_from(val, mode),
    ensures
        x.uniform_width(),
{
    assert forall|i: int| 0 <= i < x.0@.len() implies (#[trigger] x.0@[i]).sig_s@.len() == scalar_width() by {
        assert(x.0@[i].allocated_from(val.0@[i], mode));
    }
}

} // verus!
