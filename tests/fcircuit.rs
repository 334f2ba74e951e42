use fold_sigs::circuit::{ConstraintSystem, ConstructionError, PoseidonConfig, SynthesisError};
use fold_sigs::field::Fe;
use fold_sigs::input::{
    scalar_bit_width, scalar_to_bits, AllocationError, AllocationMode, Point, Scalar, Signature,
};
use fold_sigs::{ExtInp, ExtInpVar, FoldSigsStepCircuit, VecExtInp, VecExtInpVar};

const MODULUS: [u64; 4] = [
    0x43e1f593f0000001,
    0x2833e84879b97091,
    0xb85045b68181585d,
    0x30644e72e131a029,
];

pub fn test_config() -> PoseidonConfig {
    let width = 3;
    let ark = (0..65u64)
        .map(|r| (0..width as u64).map(|c| Fe::from_u64(r * 3 + c + 1)).collect())
        .collect();
    let mds = (0..width as u64)
        .map(|r| (0..width as u64).map(|c| Fe::from_u64(r + c + 7)).collect())
        .collect();
    PoseidonConfig { full_rounds: 8, partial_rounds: 57, alpha: 5, ark, mds, rate: 2, capacity: 1 }
}

const CURVE_POINTS: [([u64; 4], [u64; 4]); 4] = [
    ([0x2893f3f6bb957051, 0x2ab8d8010534e0b6, 0x4eacb2e09d6277c1, 0x0bb77a6ad63e739b], [0x4b3c257a872d7d8b, 0xfce0051fb9e13377, 0x25572e1cd16bf9ed, 0x25797203f7a0b249]),
    ([0xeb9fdcd5f81dd902, 0x1133cfca4f558b5f, 0x82f2d227e35b846b, 0x162d7e417903fa1c], [0x8e1705402b6d6853, 0x67a892296f104318, 0x8b9ebeaf848a1da0, 0x01666cafbf0a30da]),
    ([0x00fcb4ab70477e3e, 0x33c947ad93695b80, 0x37e887c8234dcf7c, 0x061c1436d1c30080], [0xa9e4631b43fd7c95, 0xc1b4df71eff3f46b, 0x4494f25889f9319c, 0x21d66f0e2295ae95]),
    ([0x37e4232afdbe43c8, 0x5ddae2aef75a4bc4, 0x3398c838aa883cc6, 0x1b16e357953d68d7], [0xe817ec77f46b4fdc, 0x1c700e73c64294f1, 0x2895c5ed5090a8aa, 0x02d7ee0be055310d]),
];

fn curve_point(k: u64) -> Point {
    let (x, y) = CURVE_POINTS[(k % 4) as usize];
    Point { x: Fe { limbs: x }, y: Fe { limbs: y } }
}

fn entry(k: u64) -> ExtInp {
    ExtInp {
        msg: Fe::from_u64(12345),
        pk: curve_point(k),
        sig: Signature {
            r: curve_point(k + 1),
            s: Scalar { limbs: [k + 1, 0, 0, 0x0500_0000_0000_0000] },
        },
    }
}

fn batch<const S: usize>() -> VecExtInp<S> {
    VecExtInp((0..S as u64).map(entry).collect())
}

#[test]
fn test_fcircuit() {
    const SIGS_PER_STEP: usize = 10;
    let ext_inps = batch::<SIGS_PER_STEP>();
    let mut cs = ConstraintSystem::new();
    let circuit = FoldSigsStepCircuit::<SIGS_PER_STEP>::new(test_config()).unwrap();
    let z_i = vec![Fe::zero()];
    let external_inputs_var =
        VecExtInpVar::<SIGS_PER_STEP>::new_variable(&ext_inps, AllocationMode::Witness).unwrap();
    let verdicts = vec![true; SIGS_PER_STEP];
    let computed = circuit
        .generate_step_constraints(&mut cs, 0, &z_i, &external_inputs_var, &verdicts)
        .unwrap();
    assert_eq!(computed, vec![Fe::from_u64(SIGS_PER_STEP as u64)]);
    assert!(cs.is_satisfied());
    assert_eq!(cs.num_constraints(), SIGS_PER_STEP);
}

#[test]
fn invalid_signature_makes_step_unsatisfiable() {
    let circuit = FoldSigsStepCircuit::<4>::new(test_config()).unwrap();
    let vars = VecExtInpVar::<4>::new_variable(&batch::<4>(), AllocationMode::Witness).unwrap();
    let mut cs = ConstraintSystem::new();
    let z = circuit
        .generate_step_constraints(&mut cs, 7, &vec![Fe::from_u64(3)], &vars, &vec![true, true, false, true])
        .unwrap();
    assert_eq!(z, vec![Fe::from_u64(7)]);
    assert!(!cs.is_satisfied());
}

#[test]
fn empty_batch_is_identity_transition() {
    let circuit = FoldSigsStepCircuit::<0>::new(test_config()).unwrap();
    let vars = VecExtInpVar::<0>::default();
    let mut cs = ConstraintSystem::new();
    let z = circuit.generate_step_constraints(&mut cs, 0, &vec![Fe::from_u64(42)], &vars, &vec![]).unwrap();
    assert_eq!(z, vec![Fe::from_u64(42)]);
    assert!(cs.is_satisfied());
    assert_eq!(cs.num_constraints(), 0);
}

#[test]
fn count_wraps_in_the_field() {
    let circuit = FoldSigsStepCircuit::<2>::new(test_config()).unwrap();
    let vars = VecExtInpVar::<2>::default();
    let mut cs = ConstraintSystem::new();
    let p_minus_one = Fe { limbs: [MODULUS[0] - 1, MODULUS[1], MODULUS[2], MODULUS[3]] };
    let z = circuit.generate_step_constraints(&mut cs, 0, &vec![p_minus_one], &vars, &vec![true, true]).unwrap();
    assert_eq!(z, vec![Fe::one()]);
}

#[test]
fn synthesis_errors() {
    let circuit = FoldSigsStepCircuit::<2>::new(test_config()).unwrap();
    let vars = VecExtInpVar::<2>::default();
    let mut cs = ConstraintSystem::new();
    assert_eq!(
        circuit.generate_step_constraints(&mut cs, 0, &vec![], &vars, &vec![true, true]),
        Err(SynthesisError::WrongStateLength)
    );
    assert_eq!(
        circuit.generate_step_constraints(&mut cs, 0, &vec![Fe { limbs: MODULUS }], &vars, &vec![true, true]),
        Err(SynthesisError::MalformedState)
    );
    assert_eq!(
        circuit.generate_step_constraints(&mut cs, 0, &vec![Fe::zero()], &vars, &vec![true]),
        Err(SynthesisError::WrongBatchSize)
    );
    assert_eq!(cs.num_constraints(), 0);
}

#[test]
fn state_length_is_one() {
    assert_eq!(FoldSigsStepCircuit::<1>::new(test_config()).unwrap().state_len(), 1);
    assert_eq!(FoldSigsStepCircuit::<10>::new(test_config()).unwrap().state_len(), 1);
    assert_eq!(FoldSigsStepCircuit::<50>::new(test_config()).unwrap().state_len(), 1);
}

#[test]
fn incompatible_config_is_refused() {
    let mut c = test_config();
    c.mds.pop();
    assert_eq!(FoldSigsStepCircuit::<1>::new(c).err(), Some(ConstructionError::IncompatibleConfig));
    let mut c = test_config();
    c.ark[3][1] = Fe { limbs: MODULUS };
    assert_eq!(FoldSigsStepCircuit::<1>::new(c).err(), Some(ConstructionError::IncompatibleConfig));
    let mut c = test_config();
    c.capacity = 0;
    assert_eq!(FoldSigsStepCircuit::<1>::new(c).err(), Some(ConstructionError::IncompatibleConfig));
    let c = test_config();
    assert_eq!(FoldSigsStepCircuit::<1>::new(c.clone()).unwrap().config().ark, c.ark);
}

#[test]
fn default_batch_allocates_in_every_mode() {
    for mode in [AllocationMode::Constant, AllocationMode::Input, AllocationMode::Witness] {
        let vars = VecExtInpVar::<10>::new_variable(&VecExtInp::<10>::default(), mode).unwrap();
        assert_eq!(vars.0.len(), 10);
        for v in &vars.0 {
            assert_eq!(v.msg, Fe::zero());
            assert_eq!(v.pk, Point { x: Fe::zero(), y: Fe::one() });
            assert_eq!(v.sig_s, vec![false; 254]);
            assert_eq!(v.mode, mode);
        }
    }
    let e = ExtInp::default();
    assert_eq!(e.pk, Point::identity());
    assert_eq!(e.sig.r, Point::identity());
    assert_eq!(e.sig.s.limbs, [0, 0, 0, 0]);
}

#[test]
fn scalar_width_is_uniform() {
    assert_eq!(scalar_bit_width(), 254);
    let a = VecExtInpVar::<10>::new_variable(&batch::<10>(), AllocationMode::Witness).unwrap();
    let b = VecExtInpVar::<50>::new_variable(&batch::<50>(), AllocationMode::Witness).unwrap();
    let d = VecExtInpVar::<3>::default();
    for v in a.0.iter().chain(b.0.iter()).chain(d.0.iter()) {
        assert_eq!(v.sig_s.len(), 254);
    }
    assert_eq!(ExtInpVar::default().sig_s.len(), 254);
}

#[test]
fn default_variable_batch_is_placeholders() {
    let d = VecExtInpVar::<4>::default();
    assert_eq!(d.0.len(), 4);
    for v in &d.0 {
        assert_eq!(v.msg, Fe::zero());
        assert_eq!(v.pk, Point::identity());
        assert_eq!(v.sig_r, Point::identity());
        assert_eq!(v.sig_s, vec![false; 254]);
        assert_eq!(v.mode, AllocationMode::Constant);
    }
}

const ORDER: [u64; 4] = [0x677297dc392126f1, 0xab3eedb83920ee0a, 0x370a08b6d0302b0b, 0x060c89ce5c263405];

#[test]
fn subgroup_membership_and_scalar_range() {
    assert!(Point::identity().is_in_subgroup());
    for k in 0..4 {
        assert!(curve_point(k).is_in_subgroup());
    }
    let two_torsion = Point { x: Fe::zero(), y: Fe { limbs: [MODULUS[0] - 1, MODULUS[1], MODULUS[2], MODULUS[3]] } };
    assert!(two_torsion.is_valid());
    assert!(!two_torsion.is_in_subgroup());
    let off = Point {
        x: Fe::from_u64(2),
        y: Fe { limbs: [0xa808c30b9c8b1924, 0x53d2841bdc1ad5ba, 0x6ebe78f26e1987dd, 0x1e94b89b33b7865e] },
    };
    assert!(off.is_valid());
    assert!(!off.is_in_subgroup());
    assert!(Scalar { limbs: [ORDER[0] - 1, ORDER[1], ORDER[2], ORDER[3]] }.is_in_range());
    assert!(!Scalar { limbs: ORDER }.is_in_range());
    assert!(Scalar { limbs: [0, 0, 0, 0] }.is_in_range());
}

#[test]
fn small_order_points_and_large_scalars_are_refused() {
    let two_torsion = Point { x: Fe::zero(), y: Fe { limbs: [MODULUS[0] - 1, MODULUS[1], MODULUS[2], MODULUS[3]] } };
    let mut b = batch::<3>();
    b.0[1].pk = two_torsion;
    assert_eq!(
        VecExtInpVar::<3>::new_variable(&b, AllocationMode::Witness).err(),
        Some(AllocationError::Malformed)
    );
    let mut b = batch::<3>();
    b.0[2].sig.r = two_torsion;
    assert_eq!(
        VecExtInpVar::<3>::new_variable(&b, AllocationMode::Constant).err(),
        Some(AllocationError::Malformed)
    );
    let mut b = batch::<3>();
    b.0[0].sig.s = Scalar { limbs: ORDER };
    assert_eq!(
        VecExtInpVar::<3>::new_variable(&b, AllocationMode::Witness).err(),
        Some(AllocationError::Malformed)
    );
}

#[test]
fn curve_membership() {
    assert!(Point::identity().is_valid());
    for k in 0..4 {
        assert!(curve_point(k).is_valid());
    }
    assert!(!Point { x: Fe::zero(), y: Fe::zero() }.is_valid());
    assert!(!Point { x: Fe::from_u64(2), y: Fe::from_u64(3) }.is_valid());
    assert!(!Point { x: Fe { limbs: MODULUS }, y: Fe::one() }.is_valid());
}

#[test]
fn scalar_bits_are_little_endian() {
    let bits = scalar_to_bits(&Scalar { limbs: [5, 0, 1, 0] }).unwrap();
    assert_eq!(bits.len(), 254);
    assert!(bits[0] && !bits[1] && bits[2] && bits[128]);
    assert_eq!(bits.iter().filter(|b| **b).count(), 3);
    let top = scalar_to_bits(&Scalar { limbs: [0, 0, 0, 1 << 61] }).unwrap();
    assert!(top[253]);
    assert_eq!(
        scalar_to_bits(&Scalar { limbs: [0, 0, 0, 1 << 62] }),
        Err(AllocationError::ScalarTooWide)
    );
}

#[test]
fn allocation_errors() {
    let short = VecExtInp::<3>(vec![entry(0), entry(1)]);
    assert_eq!(
        VecExtInpVar::<3>::new_variable(&short, AllocationMode::Witness).err(),
        Some(AllocationError::WrongBatchSize)
    );
    let mut b = batch::<3>();
    b.0[1].sig.s = Scalar { limbs: [0, 0, 0, u64::MAX] };
    b.0[2].msg = Fe { limbs: MODULUS };
    assert_eq!(
        VecExtInpVar::<3>::new_variable(&b, AllocationMode::Witness).err(),
        Some(AllocationError::ScalarTooWide)
    );
    let mut b = batch::<3>();
    b.0[2].pk = Point { x: Fe::zero(), y: Fe::zero() };
    assert_eq!(
        VecExtInpVar::<3>::new_variable(&b, AllocationMode::Witness).err(),
        Some(AllocationError::Malformed)
    );
    let mut b = batch::<3>();
    b.0[1].sig.r = Point { x: Fe::from_u64(3), y: Fe::from_u64(4) };
    assert_eq!(
        VecExtInpVar::<3>::new_variable(&b, AllocationMode::Input).err(),
        Some(AllocationError::Malformed)
    );
    let mut b = batch::<3>();
    b.0[0].pk.y = Fe { limbs: [0, 0, 0, u64::MAX] };
    assert_eq!(
        VecExtInpVar::<3>::new_variable(&b, AllocationMode::Constant).err(),
        Some(AllocationError::Malformed)
    );
}

#[test]
fn field_wrappers() {
    assert!(!Fe { limbs: MODULUS }.is_canonical());
    assert!(Fe { limbs: [MODULUS[0] - 1, MODULUS[1], MODULUS[2], MODULUS[3]] }.is_canonical());
    assert_eq!(Fe::from_u64(2).add(&Fe::from_u64(3)), Fe::from_u64(5));
    let half = Fe { limbs: [0, 0, 0, 0x2000_0000_0000_0000] };
    let sum = half.add(&half);
    assert_eq!(sum.limbs, [
        0u64.wrapping_sub(MODULUS[0]),
        0u64.wrapping_sub(MODULUS[1]).wrapping_sub(1),
        0u64.wrapping_sub(MODULUS[2]).wrapping_sub(1),
        0x4000_0000_0000_0000 - MODULUS[3] - 1,
    ]);
    assert_eq!(Fe::from_u64(6).mul(&Fe::from_u64(7)), Fe::from_u64(42));
    let p_minus_one = Fe { limbs: [MODULUS[0] - 1, MODULUS[1], MODULUS[2], MODULUS[3]] };
    assert_eq!(p_minus_one.mul(&p_minus_one), Fe::one());
    assert!(Fe::from_u64(9).same(&Fe::from_u64(9)));
    assert!(!Fe::from_u64(9).same(&Fe::from_u64(8)));
}
