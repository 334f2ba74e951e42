//! The incremental driver: it advances a running instance one step at a time,
//! refuses a step whose constraints cannot be satisfied and then keeps its
//! state, and hands out a final claim that only it can make.
use vstd::prelude::*;

use crate::circuit::{
    lemma_count_step, next_count,
    ConstraintSystem, FoldSigsStepCircuit, SynthesisError,
};
use crate::field::{modulus, Fe};
use crate::input::{AllocationError, AllocationMode, VecExtInp, VecExtInpVar};

verus! {

/// The count after `i` steps from the initial count `z0`.
pub open spec fn count_after(z0: int, i: nat, sigs_per_step: nat) -> int {
    (z0 + i * sigs_per_step) % modulus()
}

/// Why the driver refused an operation.
#[derive(Clone, Copy, Debug, PartialEq, Eq)]
pub enum IvcError {
    /// The initial state is not one canonical field element.
    MalformedInitialState,
    /// The batch could not be allocated.
    Allocation(AllocationError),
    /// Constraint generation failed.
    Synthesis(SynthesisError),
    /// Some signature of the batch does not verify: no witness exists.
    ConstraintUnsatisfied,
    /// The step counter is at its largest value.
    StepLimit,
}

/// What the driver hands out at the end: the step count, the initial and the
/// final state. Only `Ivc::ivc_proof` makes one.
#[derive(Clone, Debug)]
pub struct IvcProof {
    i: usize,
    z_0: Vec<Fe>,
    z_i: Vec<Fe>,
}

impl IvcProof {
    pub closed spec fn steps(self) -> nat {
        self.i as nat
    }

    pub closed spec fn initial_state(self) -> Seq<Fe> {
        self.z_0@
    }

    pub closed spec fn final_state(self) -> Seq<Fe> {
        self.z_i@
    }

    /// Both states are single canonical elements and the final one is what
    /// `i` steps make of the initial one.
    pub open spec fn consistent(self, sigs_per_step: nat) -> bool {
        &&& self.initial_state().len() == 1
        &&& self.final_state().len() == 1
        &&& self.initial_state()[0].wf()
        &&& self.final_state()[0].wf()
        &&& self.final_state()[0].val() == count_after(self.initial_state()[0].val(), self.steps(), sigs_per_step)
    }

    /// The number of steps the claim covers.
    pub fn num_steps(&self) -> (r: usize)
        ensures
            r == self.steps(),
    {
        self.i
    }

    /// The state the run started from.
    pub fn z_0(&self) -> (r: &Vec<Fe>)
        ensures
            r@ == self.initial_state(),
    {
        &self.z_0
    }

    /// The state after the last step.
    pub fn z_i(&self) -> (r: &Vec<Fe>)
        ensures
            r@ == self.final_state(),
    {
        &self.z_i
    }
}

/// The running instance: the circuit, the initial state, the current state
/// and the number of steps folded so far.
#[derive(Clone, Debug)]
pub struct Ivc<const SIGS_PER_STEP: usize> {
    circuit: FoldSigsStepCircuit<SIGS_PER_STEP>,
    z_0: Vec<Fe>,
    z_i: Vec<Fe>,
    i: usize,
}

impl<const SIGS_PER_STEP: usize> Ivc<SIGS_PER_STEP> {
    pub closed spec fn steps(self) -> nat {
        self.i as nat
    }

    pub closed spec fn initial(self) -> int {
        self.z_0@[0].val()
    }

    pub closed spec fn current(self) -> int {
        self.z_i@[0].val()
    }

    pub closed spec fn step_circuit(self) -> FoldSigsStepCircuit<SIGS_PER_STEP> {
        self.circuit
    }

    pub closed spec fn wf(self) -> bool {
        &&& self.z_0@.len() == 1
        &&& self.z_i@.len() == 1
        &&& self.z_0@[0].wf()
        &&& self.z_i@[0].wf()
        &&& self.z_i@[0].val() == count_after(self.z_0@[0].val(), self.i as nat, SIGS_PER_STEP as nat)
    }

    /// Starts at `z_0` with no step folded.
    pub fn init(circuit: FoldSigsStepCircuit<SIGS_PER_STEP>, z_0: Vec<Fe>) -> (r: Result<Self, IvcError>)
        ensures
            match r {
                Ok(ivc) => {
                    &&& z_0@.len() == 1 && z_0@[0].wf()
                    &&& ivc.wf()
                    &&& ivc.steps() == 0
                    &&& ivc.initial() == z_0@[0].val()
                    &&& ivc.current() == z_0@[0].val()
                    &&& ivc.step_circuit() == circuit
                },
                Err(e) => !(z_0@.len() == 1 && z_0@[0].wf()) && e == IvcError::MalformedInitialState,
            },
    {
        if z_0.len() != 1 || !z_0[0].is_canonical() {
            return Err(IvcError::MalformedInitialState);
        }
        let z_i = vec![z_0[0]];
        proof {
            vstd::arithmetic::div_mod::lemma_small_mod(z_0@[0].val() as nat, modulus() as nat);
        }
        Ok(Ivc { circuit, z_0, z_i, i: 0 })
    }

    /// Runs one step: allocates the batch as witnesses, emits the step's
    /// constraints over the caller's verdict flags (taken as given), and
    /// advances only when the system is satisfied. On any failure the instance
    /// is left as it was.
    pub fn prove_step(&mut self, batch: &VecExtInp<SIGS_PER_STEP>, verdicts: &Vec<bool>) -> (r: Result<(), IvcError>)
        requires
            old(self).wf(),
        ensures
            final(self).wf(),
            final(self).initial() == old(self).initial(),
            final(self).step_circuit() == old(self).step_circuit(),
            r is Ok <==> old(self).steps() < usize::MAX && batch.alloc_ok()
                && verdicts@.len() == SIGS_PER_STEP
                && forall|k: int| 0 <= k < verdicts@.len() ==> #[trigger] verdicts@[k],
            r is Ok ==> final(self).steps() == old(self).steps() + 1
                && final(self).current() == next_count(old(self).current(), SIGS_PER_STEP as nat),
            r is Err ==> *final(self) == *old(self),
            r == Err::<(), IvcError>(IvcError::StepLimit) <==> old(self).steps() == usize::MAX,
            old(self).steps() < usize::MAX && !batch.alloc_ok() ==> r matches Err(IvcError::Allocation(_)),
            old(self).steps() < usize::MAX && batch.alloc_ok() && verdicts@.len() != SIGS_PER_STEP
                ==> r == Err::<(), IvcError>(IvcError::Synthesis(SynthesisError::WrongBatchSize)),
            (exists|k: int| 0 <= k < verdicts@.len() && !#[trigger] verdicts@[k]) && batch.alloc_ok()
                && verdicts@.len() == SIGS_PER_STEP && old(self).steps() < usize::MAX
                ==> r == Err::<(), IvcError>(IvcError::ConstraintUnsatisfied),
    {
        if self.i == usize::MAX {
            return Err(IvcError::StepLimit);
        }
        let vars = match VecExtInpVar::<SIGS_PER_STEP>::new_variable(batch, AllocationMode::Witness) {
            Ok(v) => v,
            Err(e) => return Err(IvcError::Allocation(e)),
        };
        let mut cs = ConstraintSystem::new();
        let next = match self.circuit.generate_step_constraints(&mut cs, self.i, &self.z_i, &vars, verdicts) {
            Ok(z) => z,
            Err(e) => return Err(IvcError::Synthesis(e)),
        };
        if !cs.is_satisfied() {
            proof {
                let k = choose|k: int| 0 <= k < cs.wires().len() && !#[trigger] cs.wires()[k];
                assert(!verdicts@[k]);
            }
            return Err(IvcError::ConstraintUnsatisfied);
        }
        proof {
            assert forall|k: int| 0 <= k < verdicts@.len() implies #[trigger] verdicts@[k] by {
                assert(cs.wires()[k]);
            }
            lemma_count_step(self.initial(), self.i as nat, SIGS_PER_STEP as nat);
        }
        self.z_i = next;
        self.i = self.i + 1;
        Ok(())
    }

    /// The number of steps folded so far.
    pub fn num_steps(&self) -> (r: usize)
        ensures
            r == self.steps(),
    {
        self.i
    }

    /// The current state.
    pub fn state(&self) -> (r: Vec<Fe>)
        requires
            self.wf(),
        ensures
            r@.len() == 1,
            r@[0].wf(),
            r@[0].val() == self.current(),
    {
        vec![self.z_i[0]]
    }

    /// The final claim: step count, initial and current state.
    pub fn ivc_proof(&self) -> (r: IvcProof)
        requires
            self.wf(),
        ensures
            r.steps() == self.steps(),
            r.initial_state().len() == 1 && r.initial_state()[0].val() == self.initial(),
            r.final_state().len() == 1 && r.final_state()[0].val() == self.current(),
            r.consistent(SIGS_PER_STEP as nat),
    {
        IvcProof { i: self.i, z_0: vec![self.z_0[0]], z_i: vec![self.z_i[0]] }
    }

    /// Checks a claim made by this driver (see `ivc_proof`) for batches of
    /// `SIGS_PER_STEP`: accepts exactly when its final state is what its
    /// number of steps makes of its initial state at that batch size.
    pub fn verify(proof: &IvcProof) -> (r: bool)
        ensures
            r == proof.consistent(SIGS_PER_STEP as nat),
    {
        if proof.z_0.len() != 1 || proof.z_i.len() != 1 || !proof.z_0[0].is_canonical()
            || !proof.z_i[0].is_canonical() {
            return false;
        }
        let z0 = proof.z_0[0];
        let step = Fe::from_u64(SIGS_PER_STEP as u64);
        let mut acc = z0;
        let mut k: usize = 0;
        proof {
            vstd::arithmetic::div_mod::lemma_small_mod(z0.val() as nat, modulus() as nat);
        }
        while k < proof.i
            invariant
                k <= proof.i,
                z0.wf(),
                step.wf(),
                step.val() == SIGS_PER_STEP,
                acc.wf(),
                acc.val() == count_after(z0.val(), k as nat, SIGS_PER_STEP as nat),
            decreases proof.i - k,
        {
            proof {
                lemma_count_step(z0.val(), k as nat, SIGS_PER_STEP as nat);
            }
            acc = acc.add(&step);
            k = k + 1;
        }
        acc.same(&proof.z_i[0])
    }
}

} // verus!
