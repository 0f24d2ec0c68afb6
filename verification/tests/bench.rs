use ark_bls12_377::{Fq, Fr, G1Projective as G1, G2Projective as G2};
use ark_ec::{PairingEngine, ProjectiveCurve};
use ark_serialize::CanonicalSerialize;
use ark_std::{One, UniformRand};
use pairing_circuits::catalog::{NNAMode, OpMode};
use pairing_circuits::nna::{NNACircuit, ScalarConstraintSystem};
use pairing_circuits::params::HashParameters;
use pairing_circuits::system::ConstraintSystem;
use pairing_circuits::witness::FqCircuit;

fn print_size<S: CanonicalSerialize>(s: S, n: &str) -> Result<(), ark_serialize::SerializationError> {
    let mut v = Vec::new();
    s.serialize(&mut v)?;
    println!("{} -> {} bytes", n, v.len());
    Ok(())
}

fn sponge_params() -> HashParameters {
    let mut rng = ark_std::test_rng();
    let full_rounds: u32 = 8;
    let partial_rounds: u32 = 29;
    let mut mds = Vec::new();
    for _ in 0..3 {
        let mut row = Vec::new();
        for _ in 0..3 {
            row.push(Fq::rand(&mut rng));
        }
        mds.push(row);
    }
    let mut ark = Vec::new();
    for _ in 0..(full_rounds + partial_rounds) {
        let mut row = Vec::new();
        for _ in 0..3 {
            row.push(Fq::rand(&mut rng));
        }
        ark.push(row);
    }
    HashParameters::new(full_rounds, partial_rounds, 17, mds, ark).unwrap()
}

#[test]
fn sizes() {
    let g1 = G1::prime_subgroup_generator();
    print_size(g1, "size of g1").unwrap();
    let g2 = G2::prime_subgroup_generator();
    let gt = <ark_bls12_377::Bls12_377 as PairingEngine>::pairing::<G1, G2>(
        g1.into_affine().into(),
        g2.into_affine().into(),
    );
    print_size(g2, "size of g2").unwrap();
    print_size(gt, "size of GT").unwrap();
    print_size(Fr::one(), "size of Fr").unwrap();
}

#[test]
fn bench_381_in_377() {
    for mode in vec![NNAMode::Add, NNAMode::Mul].into_iter() {
        let mut cs = ScalarConstraintSystem::new();
        NNACircuit::new(mode.clone())
            .generate_constraints(&mut cs)
            .unwrap();
        assert!(cs.is_satisfied().unwrap());
        println!("NNA Mode {:?} : {}", mode, cs.num_constraints());
    }
}

#[test]
fn bench_bls12377() {
    let mut rng = ark_std::test_rng();
    for mode in vec![
        OpMode::Mul,
        OpMode::GtMul,
        OpMode::GtAdd,
        OpMode::Equality,
        OpMode::HashGT(7),
        OpMode::MillerLoop(1),
        OpMode::MillerLoop(45),
        OpMode::FinalExp,
        OpMode::Pairing,
        OpMode::G1Mul,
        OpMode::G2Mul,
        OpMode::NNAFieldAddOverFq,
        OpMode::NNAFieldMulOverFq,
        OpMode::NNAHash(3),
    ] {
        println!("GT operation {:?}", mode);
        let mut cs = ConstraintSystem::new();
        FqCircuit::new(&mut rng, mode, sponge_params())
            .unwrap()
            .generate_constraints(&mut cs)
            .unwrap();
        assert!(cs.is_satisfied().unwrap());

        println!("\t-Num constraints: {}", cs.num_constraints());
    }
}
