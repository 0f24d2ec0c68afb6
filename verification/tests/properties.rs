use ark_bls12_377::{Fq, Fr};
use ark_ff::{BigInteger, BigInteger384, One, PrimeField, Zero};
use ark_relations::r1cs::SynthesisError;
use ark_std::UniformRand;
use pairing_circuits::bls12381::Circuit;
use pairing_circuits::catalog::{NNAMode, OpMode};
use pairing_circuits::error::CircuitError;
use pairing_circuits::field::embed_scalar;
use pairing_circuits::nna::{NNACircuit, ScalarConstraintSystem};
use pairing_circuits::params::HashParameters;
use pairing_circuits::system::{engine_answer, ConstraintSystem};
use pairing_circuits::witness::FqCircuit;

fn table(rows: usize, width: usize, seed: u64) -> Vec<Vec<Fq>> {
    let mut out = Vec::new();
    for i in 0..rows {
        let mut row = Vec::new();
        for j in 0..width {
            row.push(Fq::from(seed + (i as u64) * 1000 + (j as u64) * 7 + 1));
        }
        out.push(row);
    }
    out
}

fn sponge_params() -> HashParameters {
    HashParameters::new(8, 29, 17, table(3, 3, 11), table(37, 3, 5000)).unwrap()
}

fn instance(a: u64, b: u64, mode: OpMode) -> FqCircuit {
    FqCircuit::from_scalars(Fr::from(a), Fr::from(b), mode, sponge_params()).unwrap()
}

fn constraints_of(a: u64, b: u64, mode: OpMode) -> usize {
    let mut cs = ConstraintSystem::new();
    instance(a, b, mode).generate_constraints(&mut cs).unwrap();
    assert!(cs.is_satisfied().unwrap());
    cs.num_constraints()
}

fn encoded_modes() -> Vec<OpMode> {
    vec![
        OpMode::Mul,
        OpMode::GtMul,
        OpMode::GtAdd,
        OpMode::Equality,
        OpMode::HashGT(2),
        OpMode::HashFr(2),
        OpMode::NNAHash(2),
        OpMode::G1Mul,
        OpMode::G2Mul,
        OpMode::MillerLoop(2),
        OpMode::FinalExp,
        OpMode::Pairing,
        OpMode::NNAFieldAddOverFq,
        OpMode::NNAFieldMulOverFq,
        OpMode::NNAG1Mul,
    ]
}

#[test]
fn sampled_scalars_pass_the_bilinearity_check() {
    let mut rng = ark_std::test_rng();
    for _ in 0..4 {
        let a = Fr::rand(&mut rng);
        let b = Fr::rand(&mut rng);
        let w = FqCircuit::from_scalars(a, b, OpMode::Mul, sponge_params()).unwrap();
        assert_eq!(*w.c(), a + b);
    }
    for _ in 0..2 {
        assert!(FqCircuit::new(&mut rng, OpMode::Equality, sponge_params()).is_ok());
    }
}

#[test]
fn the_check_refuses_a_wrong_generator_pairing() {
    let w = instance(3, 5, OpMode::Mul);
    let r = FqCircuit::from_parts(
        Fr::from(3u64),
        Fr::from(5u64),
        w.at(),
        w.miller_out(),
        OpMode::Mul,
        sponge_params(),
    );
    assert!(matches!(r, Err(CircuitError::SampleInconsistency)));
}

#[test]
fn the_check_refuses_a_wrong_miller_output() {
    let w = instance(3, 5, OpMode::Mul);
    let r = FqCircuit::from_parts(Fr::from(3u64), Fr::from(5u64), w.t(), w.t(), OpMode::Mul, sponge_params());
    assert!(matches!(r, Err(CircuitError::SampleInconsistency)));
    let r = FqCircuit::from_parts(Fr::from(3u64), Fr::from(5u64), w.t(), w.at(), OpMode::Mul, sponge_params());
    assert!(matches!(r, Err(CircuitError::SampleInconsistency)));
}

#[test]
fn generator_pairing_is_the_pairing_of_the_generator_taken_once() {
    let once = instance(1, 0, OpMode::Mul);
    assert!(once.at() == once.t());
    let twice = instance(2, 0, OpMode::Mul);
    assert!(twice.at() != twice.t());
    assert!(twice.t() == once.t());
}

#[test]
fn the_check_accepts_the_right_generator_pairing() {
    let w = instance(3, 5, OpMode::Mul);
    let again = FqCircuit::from_parts(
        Fr::from(3u64),
        Fr::from(5u64),
        w.t(),
        w.miller_out(),
        OpMode::Mul,
        sponge_params(),
    );
    let again = again.unwrap();
    assert!(again.ct() == w.ct());
    assert!(again.at() == w.at());
    assert!(again.bt() == w.bt());
    assert!(again.miller_out() == w.miller_out());
}

#[test]
fn every_encoded_operation_is_satisfied() {
    for mode in encoded_modes() {
        let mut cs = ConstraintSystem::new();
        let r = instance(11, 29, mode).generate_constraints(&mut cs);
        assert_eq!(r, Ok(()));
        assert_eq!(cs.is_satisfied(), Ok(true));
    }
}

#[test]
fn fresh_system_is_empty_and_satisfied() {
    let cs = ConstraintSystem::new();
    assert_eq!(cs.num_constraints(), 0);
    assert_eq!(cs.is_satisfied(), Ok(true));
    let cs = ScalarConstraintSystem::new();
    assert_eq!(cs.num_constraints(), 0);
    assert_eq!(cs.is_satisfied(), Ok(true));
}

#[test]
fn asking_leaves_the_system_as_it_is() {
    let mut cs = ConstraintSystem::new();
    instance(3, 5, OpMode::Mul).generate_constraints(&mut cs).unwrap();
    let n = cs.num_constraints();
    let s = cs.is_satisfied();
    assert_eq!(cs.num_constraints(), n);
    assert_eq!(cs.is_satisfied(), s);
    assert_eq!(n, 66);
    assert_eq!(s, Ok(true));
}

#[test]
fn no_operation_makes_the_count_fall() {
    let mut cs = ConstraintSystem::new();
    let mut last = cs.num_constraints();
    assert_eq!(last, 0);
    for mode in encoded_modes() {
        instance(3, 5, mode).generate_constraints(&mut cs).unwrap();
        let now = cs.num_constraints();
        assert!(now >= last);
        last = now;
    }
    let before = (cs.num_constraints(), cs.is_satisfied());
    let r = instance(3, 5, OpMode::NNAFielAddOverF2).generate_constraints(&mut cs);
    assert_eq!(r, Err(CircuitError::UnsupportedOperation));
    assert_eq!((cs.num_constraints(), cs.is_satisfied()), before);
    assert_eq!(cs.is_satisfied(), Ok(true));
}

#[test]
fn engine_answers_are_handed_on_unchanged() {
    assert_eq!(engine_answer(Ok::<bool, SynthesisError>(true)), Ok(true));
    assert_eq!(engine_answer(Ok::<bool, SynthesisError>(false)), Ok(false));
    assert_eq!(engine_answer(Ok::<usize, SynthesisError>(7)), Ok(7));
    assert_eq!(
        engine_answer(Err::<bool, SynthesisError>(SynthesisError::AssignmentMissing)),
        Err(CircuitError::ConstraintAllocationFailure(SynthesisError::AssignmentMissing))
    );
}

#[test]
fn hash_gt_accepts_zero_and_one_and_grows() {
    let n0 = constraints_of(3, 5, OpMode::HashGT(0));
    let n1 = constraints_of(3, 5, OpMode::HashGT(1));
    let n2 = constraints_of(3, 5, OpMode::HashGT(2));
    let n3 = constraints_of(3, 5, OpMode::HashGT(3));
    assert!(n0 <= n1 && n1 <= n2 && n2 <= n3);
    assert_eq!(n0, 0);
}

#[test]
fn hash_fr_accepts_zero_and_one_and_grows() {
    let n0 = constraints_of(3, 5, OpMode::HashFr(0));
    let n1 = constraints_of(3, 5, OpMode::HashFr(1));
    let n2 = constraints_of(3, 5, OpMode::HashFr(2));
    let n3 = constraints_of(3, 5, OpMode::HashFr(3));
    assert!(n0 <= n1 && n1 <= n2 && n2 <= n3);
    assert_eq!(n0, 0);
}

#[test]
fn nna_hash_accepts_zero_and_one_and_grows() {
    let n0 = constraints_of(3, 5, OpMode::NNAHash(0));
    let n1 = constraints_of(3, 5, OpMode::NNAHash(1));
    let n2 = constraints_of(3, 5, OpMode::NNAHash(2));
    assert!(n0 <= n1 && n1 <= n2);
}

#[test]
fn miller_loop_accepts_zero_and_one_and_grows() {
    let n0 = constraints_of(3, 5, OpMode::MillerLoop(0));
    let n1 = constraints_of(3, 5, OpMode::MillerLoop(1));
    let n2 = constraints_of(3, 5, OpMode::MillerLoop(2));
    assert!(n0 <= n1 && n1 <= n2);
    assert_eq!(n0, 0);
    assert!(n1 > 0);
}

#[test]
fn pairing_whole_and_split_are_both_satisfied() {
    let mut whole = ConstraintSystem::new();
    instance(3, 5, OpMode::Pairing).generate_constraints(&mut whole).unwrap();
    assert!(whole.is_satisfied().unwrap());

    let mut split = ConstraintSystem::new();
    instance(3, 5, OpMode::MillerLoop(1)).generate_constraints(&mut split).unwrap();
    let after_loop = split.num_constraints();
    instance(3, 5, OpMode::FinalExp).generate_constraints(&mut split).unwrap();
    assert!(split.is_satisfied().unwrap());
    assert!(split.num_constraints() > after_loop);
}

#[test]
fn three_plus_five_makes_eight() {
    let w = instance(3, 5, OpMode::Mul);
    assert_eq!(*w.c(), Fr::from(8u64));
    let eight = instance(8, 0, OpMode::Mul);
    assert!(w.ct() == eight.ct());
    assert!(w.at() != w.bt());
    assert!(w.ct() != w.at());
    let mut cs = ConstraintSystem::new();
    w.generate_constraints(&mut cs).unwrap();
    assert!(cs.is_satisfied().unwrap());
    assert_eq!(cs.num_constraints(), 66);
}

#[test]
fn zero_exponent_gives_the_identity() {
    let seven = Fr::from(7u64);
    let w = FqCircuit::from_scalars(seven, -seven, OpMode::GtMul, sponge_params()).unwrap();
    assert!(w.c().is_zero());
    let nothing = instance(0, 0, OpMode::GtMul);
    assert!(w.ct() == nothing.at());
    assert!(w.ct() != w.t());
    let mut cs = ConstraintSystem::new();
    assert_eq!(w.generate_constraints(&mut cs), Ok(()));
    assert!(cs.is_satisfied().unwrap());
}

#[test]
fn hash_of_target_group_is_deterministic() {
    let mut first = ConstraintSystem::new();
    let d1 = instance(3, 5, OpMode::HashGT(7)).hash_target_group(&mut first, 7).unwrap();
    let mut second = ConstraintSystem::new();
    let d2 = instance(3, 5, OpMode::HashGT(7)).hash_target_group(&mut second, 7).unwrap();
    assert_eq!(d1, d2);
    assert_eq!(first.num_constraints(), second.num_constraints());
    assert!(first.is_satisfied().unwrap());

    let mut third = ConstraintSystem::new();
    let d3 = instance(3, 5, OpMode::HashGT(7)).hash_target_group(&mut third, 6).unwrap();
    assert_ne!(d1, d3);
    let mut fourth = ConstraintSystem::new();
    let d4 = instance(4, 5, OpMode::HashGT(7)).hash_target_group(&mut fourth, 7).unwrap();
    assert_ne!(d1, d4);
}

#[test]
fn hash_of_target_group_is_what_dispatch_lays_down() {
    let mut direct = ConstraintSystem::new();
    instance(3, 5, OpMode::HashGT(7)).hash_target_group(&mut direct, 7).unwrap();
    assert_eq!(direct.num_constraints(), constraints_of(3, 5, OpMode::HashGT(7)));
}

#[test]
fn hash_of_base_field_is_deterministic() {
    let mut first = ConstraintSystem::new();
    let d1 = instance(3, 5, OpMode::HashFr(2)).hash_base_field(&mut first, 2).unwrap();
    let mut second = ConstraintSystem::new();
    let d2 = instance(3, 5, OpMode::HashFr(2)).hash_base_field(&mut second, 2).unwrap();
    assert_eq!(d1, d2);
    let mut third = ConstraintSystem::new();
    let d3 = instance(3, 6, OpMode::HashFr(2)).hash_base_field(&mut third, 2).unwrap();
    assert_ne!(d1, d3);
    assert_eq!(first.num_constraints(), constraints_of(3, 5, OpMode::HashFr(2)));
}

#[test]
fn unrelated_field_sum_is_unsupported() {
    let mut cs = ConstraintSystem::new();
    let r = instance(3, 5, OpMode::NNAFielAddOverF2).generate_constraints(&mut cs);
    assert_eq!(r, Err(CircuitError::UnsupportedOperation));
    assert_eq!(cs.num_constraints(), 0);
    assert_eq!(cs.is_satisfied(), Ok(true));
}

#[test]
fn failures_compare_by_kind_and_cause() {
    let missing = CircuitError::ConstraintAllocationFailure(SynthesisError::MissingCS);
    let unassigned = CircuitError::ConstraintAllocationFailure(SynthesisError::AssignmentMissing);
    assert_eq!(missing, missing.clone());
    assert_ne!(missing, unassigned);
    assert_ne!(missing, CircuitError::UnsupportedOperation);
    assert_ne!(CircuitError::SampleInconsistency, CircuitError::UnsupportedOperation);
    assert_eq!(format!("{:?}", CircuitError::SampleInconsistency), "SampleInconsistency");
    assert_eq!(format!("{:?}", missing), "ConstraintAllocationFailure(MissingCS)");
}

#[test]
fn second_curve_family_is_unsupported() {
    for mode in vec![OpMode::NNAHash(3), OpMode::Mul, OpMode::NNAFielAddOverF2] {
        let mut cs = ConstraintSystem::new();
        let circuit = Circuit::new(mode.clone());
        assert_eq!(format!("{:?}", circuit.mode()), format!("{:?}", mode));
        assert_eq!(circuit.generate_constraints(&mut cs), Err(CircuitError::UnsupportedOperation));
        assert_eq!(cs.num_constraints(), 0);
    }
}

#[test]
fn catalogue_knows_what_is_encoded() {
    for mode in encoded_modes() {
        assert!(mode.is_supported());
    }
    assert!(!OpMode::NNAFielAddOverF2.is_supported());
    assert_eq!(OpMode::HashGT(7).repetition_count(), Some(7));
    assert_eq!(OpMode::HashFr(0).repetition_count(), Some(0));
    assert_eq!(OpMode::NNAHash(3).repetition_count(), Some(3));
    assert_eq!(OpMode::MillerLoop(45).repetition_count(), Some(45));
    assert_eq!(OpMode::Pairing.repetition_count(), None);
    assert_eq!(OpMode::NNAFielAddOverF2.repetition_count(), None);
}

#[test]
fn scalars_keep_their_integer_in_the_base_field() {
    assert_eq!(embed_scalar(&Fr::from(5u64)), Fq::from(5u64));
    assert_eq!(embed_scalar(&Fr::zero()), Fq::zero());
    assert_eq!(embed_scalar(&Fr::one()), Fq::one());
    let top = -Fr::one();
    let limbs = top.into_repr();
    let wide = BigInteger384::from_bits_le(&limbs.to_bits_le());
    assert_eq!(embed_scalar(&top), Fq::from_repr(wide).unwrap());
    assert_eq!(embed_scalar(&top).into_repr().to_bits_le()[..256], limbs.to_bits_le()[..]);
}

#[test]
fn instance_holds_its_scalar_in_the_base_field() {
    let w = instance(3, 5, OpMode::GtMul);
    w.consistency();
    assert_eq!(*w.c_in_base(), Fq::from(8u64));
    let top = FqCircuit::from_scalars(-Fr::one(), Fr::zero(), OpMode::GtMul, sponge_params()).unwrap();
    assert_eq!(*top.c_in_base(), embed_scalar(top.c()));
    assert_eq!(top.c_in_base().into_repr().to_bits_le()[..256], top.c().into_repr().to_bits_le()[..]);
}

#[test]
fn point_at_infinity_is_allocated_but_not_multiplied() {
    // With `a = 0` the point `a·G1` is the point at infinity.  The gadget
    // library takes it as a witness, and its scalar multiplication then
    // lays down constraints that the witness does not meet.
    let mut cs = ConstraintSystem::new();
    assert_eq!(instance(0, 5, OpMode::G1Mul).generate_constraints(&mut cs), Ok(()));
    assert_eq!(cs.is_satisfied(), Ok(false));
    let mut cs = ConstraintSystem::new();
    assert_eq!(instance(0, 5, OpMode::Mul).generate_constraints(&mut cs), Ok(()));
    assert_eq!(cs.is_satisfied(), Ok(true));
}

#[test]
fn unreduced_scalars_are_taken_as_they_are() {
    // An element built from the limbs of the field's order itself: its
    // integer is the order, not zero.
    let order = <ark_bls12_377::FrParameters as ark_ff::FpParameters>::MODULUS;
    let odd = Fr::new(order);
    let wide = BigInteger384::from_bits_le(&order.to_bits_le());
    assert_eq!(embed_scalar(&odd), Fq::from_repr(wide).unwrap());
    assert!(embed_scalar(&odd) != Fq::zero());
    match FqCircuit::from_scalars(odd, odd, OpMode::GtMul, sponge_params()) {
        Ok(w) => {
            assert_eq!(*w.c_in_base(), embed_scalar(w.c()));
            let mut cs = ConstraintSystem::new();
            assert_eq!(w.generate_constraints(&mut cs), Ok(()));
        }
        Err(e) => assert_eq!(e, CircuitError::SampleInconsistency),
    }
    let other = <ark_bls12_381::FrParameters as ark_ff::FpParameters>::MODULUS;
    let c = NNACircuit::from_elements(ark_bls12_381::Fr::new(other), ark_bls12_381::Fr::new(other), NNAMode::Add);
    assert_eq!(*c.e3(), *c.e1() * *c.e2());
}

#[test]
fn sponge_parameters_are_checked_for_shape() {
    assert!(HashParameters::new(8, 29, 17, table(3, 3, 1), table(37, 3, 2)).is_some());
    assert!(HashParameters::new(0, 0, 0, table(3, 3, 1), table(0, 3, 2)).is_some());
    // one row of round constants too few, and one too many
    assert!(HashParameters::new(8, 29, 17, table(3, 3, 1), table(36, 3, 2)).is_none());
    assert!(HashParameters::new(8, 29, 17, table(3, 3, 1), table(38, 3, 2)).is_none());
    // a row of round constants of the wrong width
    assert!(HashParameters::new(8, 29, 17, table(3, 3, 1), table(37, 2, 2)).is_none());
    assert!(HashParameters::new(8, 29, 17, table(3, 3, 1), table(37, 4, 2)).is_none());
    // a matrix of the wrong shape
    assert!(HashParameters::new(8, 29, 17, table(2, 3, 1), table(37, 3, 2)).is_none());
    assert!(HashParameters::new(8, 29, 17, table(4, 3, 1), table(37, 3, 2)).is_none());
    assert!(HashParameters::new(8, 29, 17, table(3, 2, 1), table(37, 3, 2)).is_none());
    // a round count beyond the counter
    assert!(HashParameters::new(u32::MAX, 1, 17, table(3, 3, 1), table(0, 3, 2)).is_none());
    let p = sponge_params();
    assert_eq!(p.full_rounds(), 8);
    assert_eq!(p.partial_rounds(), 29);
    assert_eq!(p.alpha(), 17);
    assert_eq!(*p.mds(), table(3, 3, 11));
    assert_eq!(*p.ark(), table(37, 3, 5000));
}

#[test]
fn small_sponge_configurations_still_hash() {
    let shapes: Vec<(u32, u32, u64)> = vec![(0, 0, 0), (1, 0, 0), (0, 1, 1), (3, 2, 5), (2, 0, u64::MAX)];
    for (full, partial, alpha) in shapes {
        let rounds = (full + partial) as usize;
        for mode in vec![OpMode::HashGT(0), OpMode::HashGT(2), OpMode::HashFr(3), OpMode::NNAHash(1)] {
            let params = HashParameters::new(full, partial, alpha, table(3, 3, 1), table(rounds, 3, 2)).unwrap();
            let w = FqCircuit::from_scalars(Fr::from(3u64), Fr::from(5u64), mode, params).unwrap();
            let mut cs = ConstraintSystem::new();
            assert_eq!(w.generate_constraints(&mut cs), Ok(()));
            assert_eq!(cs.is_satisfied(), Ok(true));
        }
    }
}

#[test]
fn target_group_elements_compare_by_value() {
    let w = instance(3, 5, OpMode::Mul);
    let copy = w.at().clone();
    assert!(copy == *w.at());
    assert!(!(copy != *w.at()));
    assert!(copy != *w.bt());
    assert!(!(copy == *w.bt()));
}

#[test]
fn instance_hands_out_what_it_was_made_with() {
    let w = instance(3, 5, OpMode::HashGT(4));
    assert!(matches!(w.mode(), OpMode::HashGT(4)));
    assert_eq!(w.poseidon_params().full_rounds(), 8);
    assert_eq!(w.poseidon_params().partial_rounds(), 29);
    assert_eq!(w.poseidon_params().alpha(), 17);
    let other = instance(3, 9, OpMode::HashGT(4));
    assert!(w.at() == other.at());
    assert!(w.miller_out() == other.miller_out());
    assert!(w.miller_out() == instance(4, 9, OpMode::Mul).miller_out());
    assert!(w.miller_out() == instance(1, 0, OpMode::Mul).miller_out());
    assert!(w.miller_out() != w.at());
    assert!(w.miller_out() != w.t());
    assert!(w.t() == other.t());
    assert!(w.bt() != other.bt());
    assert_eq!(format!("{:?}", w.ag()), format!("{:?}", other.ag()));
    assert_ne!(format!("{:?}", w.bg()), format!("{:?}", other.bg()));
}

#[test]
fn foreign_field_circuit_multiplies_its_operands() {
    let e1 = ark_bls12_381::Fr::from(3u64);
    let e2 = ark_bls12_381::Fr::from(5u64);
    let c = NNACircuit::from_elements(e1, e2, NNAMode::Mul);
    assert_eq!(*c.e1(), e1);
    assert_eq!(*c.e2(), e2);
    assert_eq!(*c.e3(), ark_bls12_381::Fr::from(15u64));
    assert!(matches!(c.m(), NNAMode::Mul));
    let sampled = NNACircuit::new(NNAMode::Add);
    assert_eq!(*sampled.e3(), *sampled.e1() * *sampled.e2());
    assert!(matches!(sampled.m(), NNAMode::Add));
}

#[test]
fn foreign_field_circuit_is_satisfied() {
    let mut counts = Vec::new();
    for mode in vec![NNAMode::Add, NNAMode::Mul] {
        let mut cs = ScalarConstraintSystem::new();
        let c = NNACircuit::from_elements(-ark_bls12_381::Fr::from(1u64), ark_bls12_381::Fr::from(0u64), mode);
        assert_eq!(c.generate_constraints(&mut cs), Ok(()));
        assert_eq!(cs.is_satisfied(), Ok(true));
        counts.push(cs.num_constraints());
    }
    assert!(counts[0] > 0);
    assert!(counts[0] < counts[1]);
}
