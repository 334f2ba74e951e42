//! The step circuit: per step, one verdict flag per entry of the batch is
//! enforced to be true and the running count grows by the batch size. The
//! flags are the signature scheme's verdicts on the entries, computed by the
//! caller with that scheme's own verifier under the circuit's sponge
//! parameters (`config`); nothing here checks them against the entries.
use vstd::prelude::*;

use crate::field::{modulus, Fe};
use crate::input::{scalar_bit_width, scalar_width, VecExtInpVar};

verus! {

/// Parameters of the Poseidon sponge that the signature gadget hashes with.
#[derive(Clone, Debug)]
pub struct PoseidonConfig {
    pub full_rounds: usize,
    pub partial_rounds: usize,
    pub alpha: u64,
    /// One row of round constants per round, each as wide as the state.
    pub ark: Vec<Vec<Fe>>,
    /// The square MDS matrix, as wide as the state.
    pub mds: Vec<Vec<Fe>>,
    pub rate: usize,
    pub capacity: usize,
}

/// Every row has `width` entries, each a canonical field element.
pub open spec fn rows_wf(m: Seq<Vec<Fe>>, width: int) -> bool {
    forall|i: int| 0 <= i < m.len() ==> (#[trigger] m[i])@.len() == width
        && forall|j: int| 0 <= j < width ==> (#[trigger] m[i]@[j]).wf()
}

impl PoseidonConfig {
    /// The parameters fit the circuit's field and are consistent in shape.
    pub open spec fn compatible(self) -> bool {
        &&& self.rate >= 1
        &&& self.capacity >= 1
        &&& self.rate + self.capacity <= usize::MAX
        &&& self.full_rounds + self.partial_rounds <= usize::MAX
        &&& self.ark@.len() == self.full_rounds + self.partial_rounds
        &&& self.mds@.len() == self.rate + self.capacity
        &&& rows_wf(self.ark@, self.rate + self.capacity)
        &&& rows_wf(self.mds@, self.rate + self.capacity)
    }
}

/// Whether every row of `m` has `width` canonical entries.
fn check_rows(m: &Vec<Vec<Fe>>, width: usize) -> (r: bool)
    ensures
        r == rows_wf(m@, width as int),
{
    let mut i: usize = 0;
    while i < m.len()
        invariant
            i <= m@.len(),
            rows_wf(m@.subrange(0, i as int), width as int),
        decreases m@.len() - i,
    {
        let row = &m[i];
        if row.len() != width {
            assert(!rows_wf(m@, width as int)) by {
                assert(m@[i as int]@.len() != width);
            }
            return false;
        }
        let mut j: usize = 0;
        while j < width
            invariant
                i < m@.len(),
                *row == m@[i as int],
                row@.len() == width,
                j <= width,
                forall|k: int| 0 <= k < j ==> (#[trigger] row@[k]).wf(),
            decreases width - j,
        {
            if !row[j].is_canonical() {
                assert(!rows_wf(m@, width as int)) by {
                    assert(!m@[i as int]@[j as int].wf());
                }
                return false;
            }
            j = j + 1;
        }
        assert(rows_wf(m@.subrange(0, i + 1), width as int)) by {
            assert forall|a: int| 0 <= a < i + 1 implies (#[trigger] m@.subrange(0, i + 1)[a])@.len() == width
                && forall|b: int| 0 <= b < width ==> (#[trigger] m@.subrange(0, i + 1)[a]@[b]).wf() by {
                if a < i {
                    assert(m@.subrange(0, i as int)[a] == m@.subrange(0, i + 1)[a]);
                }
            }
        }
        i = i + 1;
    }
    assert(m@.subrange(0, m@.len() as int) =~= m@);
    true
}

/// Whether every entry's scalar has the fixed number of bits.
fn uniform_scalar_width<const S: usize>(vars: &VecExtInpVar<S>) -> (r: bool)
    ensures
        r == vars.uniform_width(),
{
    let width = scalar_bit_width();
    let mut k: usize = 0;
    while k < vars.0.len()
        invariant
            width == scalar_width(),
            k <= vars.0@.len(),
            forall|i: int| 0 <= i < k ==> (#[trigger] vars.0@[i]).sig_s@.len() == scalar_width(),
        decreases vars.0@.len() - k,
    {
        if vars.0[k].sig_s.len() != width {
            return false;
        }
        k = k + 1;
    }
    true
}

/// Why a step circuit could not be built.
#[derive(Clone, Copy, Debug, PartialEq, Eq)]
pub enum ConstructionError {
    /// The sponge parameters do not fit the circuit's field.
    IncompatibleConfig,
}

/// Why constraint generation for a step failed.
#[derive(Clone, Copy, Debug, PartialEq, Eq)]
pub enum SynthesisError {
    /// The state vector is not of the circuit's state length.
    WrongStateLength,
    /// The state holds a non-canonical field element.
    MalformedState,
    /// The batch, or its verdicts, do not hold one item per signature.
    WrongBatchSize,
    /// Some entry's scalar is not decomposed into the fixed number of bits.
    WrongScalarWidth,
}

/// The constraints emitted so far, each a boolean wire that must equal true.
/// The system is satisfiable exactly when every such wire is true.
#[derive(Clone, Debug)]
pub struct ConstraintSystem {
    enforced: Vec<bool>,
}

impl ConstraintSystem {
    pub closed spec fn wires(self) -> Seq<bool> {
        self.enforced@
    }

    pub open spec fn satisfied(self) -> bool {
        forall|i: int| 0 <= i < self.wires().len() ==> #[trigger] self.wires()[i]
    }

    /// An empty, satisfiable system.
    pub fn new() -> (r: ConstraintSystem)
        ensures
            r.wires() == Seq::<bool>::empty(),
            r.satisfied(),
    {
        ConstraintSystem { enforced: Vec::new() }
    }

    /// Adds the hard constraint `wire == true`.
    pub fn enforce_true(&mut self, wire: bool)
        ensures
            final(self).wires() == old(self).wires().push(wire),
    {
        self.enforced.push(wire);
    }

    pub fn num_constraints(&self) -> (r: usize)
        ensures
            r == self.wires().len(),
    {
        self.enforced.len()
    }

    /// Whether every enforced wire is true.
    pub fn is_satisfied(&self) -> (r: bool)
        ensures
            r == self.satisfied(),
    {
        let mut i: usize = 0;
        while i < self.enforced.len()
            invariant
                i <= self.enforced@.len(),
                forall|k: int| 0 <= k < i ==> #[trigger] self.enforced@[k],
            decreases self.enforced@.len() - i,
        {
            if !self.enforced[i] {
                assert(!self.wires()[i as int]);
                return false;
            }
            i = i + 1;
        }
        true
    }
}

/// The state after a step: the count grown by the batch size, in the field.
pub open spec fn next_count(z: int, sigs_per_step: nat) -> int {
    (z + sigs_per_step) % modulus()
}

/// Adding one more step's batch to a count of `i` steps gives the count of
/// `i + 1` steps.
pub proof fn lemma_count_step(z0: int, i: nat, s: nat)
    ensures
        next_count((z0 + i * s) % modulus(), s) == (z0 + (i + 1) * s) % modulus(),
{
    vstd::arithmetic::div_mod::lemma_add_mod_noop_right(s as int, z0 + i * s, modulus());
    assert(s + (z0 + i * s) == z0 + (i + 1) * s) by (nonlinear_arith);
}

/// A step whose verdict flags are all true leaves a satisfiable system
/// satisfiable.
pub proof fn lemma_true_verdicts_satisfiable(before: ConstraintSystem, after: ConstraintSystem, verdicts: Seq<bool>)
    requires
        before.satisfied(),
        after.wires() == before.wires() + verdicts,
        forall|k: int| 0 <= k < verdicts.len() ==> #[trigger] verdicts[k],
    ensures
        after.satisfied(),
{
    assert forall|k: int| 0 <= k < after.wires().len() implies #[trigger] after.wires()[k] by {
        if k < before.wires().len() {
            assert(before.wires()[k]);
        } else {
            assert(verdicts[k - before.wires().len()]);
        }
    }
}

/// A step with one false verdict flag leaves the system
/// unsatisfiable, whatever came before.
pub proof fn lemma_false_verdict_unsatisfiable(
    before: ConstraintSystem,
    after: ConstraintSystem,
    verdicts: Seq<bool>,
    k: int,
)
    requires
        after.wires() == before.wires() + verdicts,
        0 <= k < verdicts.len(),
        !verdicts[k],
    ensures
        !after.satisfied(),
{
    assert(!after.wires()[before.wires().len() + k]);
}

/// The step circuit for batches of `SIGS_PER_STEP` signatures.
#[derive(Clone, Debug)]
pub struct FoldSigsStepCircuit<const SIGS_PER_STEP: usize> {
    config: PoseidonConfig,
}

impl<const SIGS_PER_STEP: usize> FoldSigsStepCircuit<SIGS_PER_STEP> {
    pub closed spec fn params(self) -> PoseidonConfig {
        self.config
    }

    /// Builds the circuit; fails exactly when the sponge parameters do not fit.
    pub fn new(config: PoseidonConfig) -> (r: Result<Self, ConstructionError>)
        ensures
            match r {
                Ok(c) => config.compatible() && c.params() == config,
                Err(e) => !config.compatible() && e == ConstructionError::IncompatibleConfig,
            },
    {
        if config.rate == 0 || config.capacity == 0 || config.rate > usize::MAX - config.capacity
            || config.full_rounds > usize::MAX - config.partial_rounds {
            return Err(ConstructionError::IncompatibleConfig);
        }
        let width = config.rate + config.capacity;
        if config.ark.len() != config.full_rounds + config.partial_rounds || config.mds.len() != width
            || !check_rows(&config.ark, width) || !check_rows(&config.mds, width) {
            return Err(ConstructionError::IncompatibleConfig);
        }
        Ok(FoldSigsStepCircuit { config })
    }

    /// The sponge parameters the circuit was built with.
    pub fn config(&self) -> (r: &PoseidonConfig)
        ensures
            *r == self.params(),
    {
        &self.config
    }

    /// The length of the state vector: one running count.
    pub fn state_len(&self) -> (r: usize)
        ensures
            r == 1,
    {
        1
    }

    /// Emits one step's constraints. `verdicts[k]` is the caller's flag for
    /// entry `k` of the batch, taken as given; each is enforced to be true, and
    /// the count grows by one per entry. The step index takes no part.
    pub fn generate_step_constraints(
        &self,
        cs: &mut ConstraintSystem,
        _i: usize,
        z_i: &Vec<Fe>,
        external_inputs: &VecExtInpVar<SIGS_PER_STEP>,
        verdicts: &Vec<bool>,
    ) -> (r: Result<Vec<Fe>, SynthesisError>)
        ensures
            match r {
                Ok(z) => {
                    &&& z_i@.len() == 1
                    &&& z_i@[0].wf()
                    &&& external_inputs.0@.len() == SIGS_PER_STEP
                    &&& external_inputs.uniform_width()
                    &&& verdicts@.len() == SIGS_PER_STEP
                    &&& z@.len() == 1
                    &&& z@[0].wf()
                    &&& z@[0].val() == next_count(z_i@[0].val(), SIGS_PER_STEP as nat)
                    &&& final(cs).wires() == old(cs).wires() + verdicts@
                },
                Err(e) => {
                    &&& *final(cs) == *old(cs)
                    &&& (e == SynthesisError::WrongStateLength <==> z_i@.len() != 1)
                    &&& (e == SynthesisError::MalformedState <==> z_i@.len() == 1 && !z_i@[0].wf())
                    &&& (e == SynthesisError::WrongBatchSize <==> z_i@.len() == 1 && z_i@[0].wf()
                        && (external_inputs.0@.len() != SIGS_PER_STEP || verdicts@.len() != SIGS_PER_STEP))
                    &&& (e == SynthesisError::WrongScalarWidth <==> z_i@.len() == 1 && z_i@[0].wf()
                        && external_inputs.0@.len() == SIGS_PER_STEP && verdicts@.len() == SIGS_PER_STEP
                        && !external_inputs.uniform_width())
                },
            },
    {
        if z_i.len() != 1 {
            return Err(SynthesisError::WrongStateLength);
        }
        if !z_i[0].is_canonical() {
            return Err(SynthesisError::MalformedState);
        }
        if external_inputs.0.len() != SIGS_PER_STEP || verdicts.len() != SIGS_PER_STEP {
            return Err(SynthesisError::WrongBatchSize);
        }
        if !uniform_scalar_width(external_inputs) {
            return Err(SynthesisError::WrongScalarWidth);
        }
        let one = Fe::one();
        let mut count = z_i[0];
        let ghost start = cs.wires();
        proof {
            vstd::arithmetic::div_mod::lemma_small_mod(z_i@[0].val() as nat, modulus() as nat);
        }
        let mut k: usize = 0;
        while k < SIGS_PER_STEP
            invariant
                k <= SIGS_PER_STEP,
                verdicts@.len() == SIGS_PER_STEP,
                one.wf() && one.val() == 1,
                z_i@.len() == 1,
                z_i@[0].wf(),
                count.wf(),
                count.val() == (z_i@[0].val() + k) % modulus(),
                cs.wires() == start + verdicts@.subrange(0, k as int),
            decreases SIGS_PER_STEP - k,
        {
            cs.enforce_true(verdicts[k]);
            proof {
                vstd::arithmetic::div_mod::lemma_add_mod_noop(z_i@[0].val() + k, 1, modulus());
                vstd::arithmetic::div_mod::lemma_small_mod(1nat, modulus() as nat);
                vstd::arithmetic::div_mod::lemma_mod_twice(z_i@[0].val() + k, modulus());
            }
            count = count.add(&one);
            assert(verdicts@.subrange(0, k + 1) =~= verdicts@.subrange(0, k as int).push(verdicts@[k as int]));
            k = k + 1;
        }
        assert(verdicts@.subrange(0, SIGS_PER_STEP as int) =~= verdicts@);
        let mut z: Vec<Fe> = Vec::new();
        z.push(count);
        Ok(z)
    }
}

} // verus!
