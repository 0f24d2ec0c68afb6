//! The sampled problem instance that a benchmark circuit is built from.
//!
//! From two scalars `a` and `b` the instance holds their sum `c`, the
//! points `a·G1` and `b·G2`, and the pairings of `a·G1`, `b·G1` and `c·G1`
//! with `G2`, beside the pairing `t` of the two generators and their Miller
//! loop.  Bilinearity
//! makes the pairing of `c·G1` equal to `t^c`, to `t^a · t^b` and to the
//! product of the other two pairings.  The instance is made only where the
//! arithmetic library agrees with all three.  It also holds `c` as an
//! element of the base field, which the circuits decompose into bits.

use vstd::prelude::*;

use ark_bls12_377::{Fq, Fr};
use rand::rngs::StdRng;

use crate::catalog::OpMode;
use crate::error::CircuitError;
use crate::field::{
    base_value, embed_scalar, embedding, random_scalar, scalar_add, scalar_sum, scalar_value,
};
use crate::group::{
    g1_multiple, g1_multiple_of, g2_multiple, g2_multiple_of, generator_pairing, gt_eq, gt_mul,
    final_exponentiation_of, gt_final_exponentiation, gt_pow, gt_power, gt_product,
    is_generators_miller, is_generators_pairing, miller_generators, pair_generators,
    pair_with_generator, G1Point, G2Point, GtElement,
};
use crate::params::{HashParameters, HashParametersView};

verus! {

/// What an instance holds, as mathematics.
pub struct WitnessBundle {
    /// The sum of the two sampled scalars.
    pub c: Fr,
    /// The pairing of `a·G1` with `G2`.
    pub at: GtElement,
    /// The pairing of `b·G1` with `G2`.
    pub bt: GtElement,
    /// The pairing of `c·G1` with `G2`.
    pub ct: GtElement,
    /// The pairing of the two generators.
    pub t: GtElement,
    /// The point `a·G1`.
    pub ag: G1Point,
    /// The point `b·G2`.
    pub bg: G2Point,
    /// The Miller loop of the two generators: the pairing `t` before its
    /// final exponentiation.
    pub miller_out: GtElement,
    /// The operation that the circuit is to encode.
    pub mode: OpMode,
    /// The configuration of the sponge.
    pub poseidon_params: HashParametersView,
}

impl WitnessBundle {
    /// The instance that the scalars `a` and `b` give, with `t` for the
    /// pairing of the generators and `miller_out` for their Miller loop.
    pub open spec fn of(
        a: Fr,
        b: Fr,
        t: GtElement,
        miller_out: GtElement,
        mode: OpMode,
        poseidon_params: HashParametersView,
    ) -> WitnessBundle {
        let c = scalar_sum(a, b);
        WitnessBundle {
            c,
            at: generator_pairing(g1_multiple_of(a)),
            bt: generator_pairing(g1_multiple_of(b)),
            ct: generator_pairing(g1_multiple_of(c)),
            t,
            ag: g1_multiple_of(a),
            bg: g2_multiple_of(b),
            miller_out,
            mode,
            poseidon_params,
        }
    }

    /// The invariant of an instance: the pairing of `c·G1` is the product of
    /// the other two pairings, it is `t` raised to `c`, `t` is the final
    /// exponentiation of the Miller output, and `c` keeps its integer when
    /// it is carried over into the base field.
    pub open spec fn consistent(self) -> bool {
        &&& self.ct == gt_product(self.at, self.bt)
        &&& self.ct == gt_power(self.t, scalar_value(self.c))
        &&& final_exponentiation_of(self.miller_out) == Some(self.t)
        &&& base_value(embedding(self.c)) == scalar_value(self.c)
    }
}

/// The cross-check of sampling: the three ways of deriving the pairing of
/// `c·G1` agree, and the pairing of the generators is the final
/// exponentiation of their Miller loop.
pub open spec fn cross_check(a: Fr, b: Fr, t: GtElement, miller_out: GtElement) -> bool {
    let c = scalar_sum(a, b);
    let ct = generator_pairing(g1_multiple_of(c));
    &&& final_exponentiation_of(miller_out) == Some(t)
    &&& ct == gt_power(t, scalar_value(c))
    &&& ct == gt_product(gt_power(t, scalar_value(a)), gt_power(t, scalar_value(b)))
    &&& ct == gt_product(generator_pairing(g1_multiple_of(a)), generator_pairing(g1_multiple_of(b)))
}

/// What sampling returns for the scalars `a` and `b`, the pairing `t` of
/// the generators and their Miller loop `miller_out`: the instance where the
/// cross-check passes, which is then consistent, and `SampleInconsistency`
/// where it does not.
pub open spec fn sampled(
    r: Result<FqCircuit, CircuitError>,
    a: Fr,
    b: Fr,
    t: GtElement,
    miller_out: GtElement,
    mode: OpMode,
    poseidon_params: HashParametersView,
) -> bool {
    match r {
        Ok(w) => cross_check(a, b, t, miller_out) && w@ == WitnessBundle::of(
            a,
            b,
            t,
            miller_out,
            mode,
            poseidon_params,
        ) && w@.consistent(),
        Err(e) => !cross_check(a, b, t, miller_out) && e == CircuitError::SampleInconsistency,
    }
}

/// A sampled instance together with the operation to encode.  Every value
/// of this type is consistent.
pub struct FqCircuit {
    c: Fr,
    at: GtElement,
    bt: GtElement,
    ct: GtElement,
    t: GtElement,
    ag: G1Point,
    bg: G2Point,
    miller_out: GtElement,
    mode: OpMode,
    poseidon_params: HashParameters,
    /// The scalar `c`, carried over into the base field.
    c_in_base: Fq,
}

impl View for FqCircuit {
    type V = WitnessBundle;

    closed spec fn view(&self) -> WitnessBundle {
        WitnessBundle {
            c: self.c,
            at: self.at,
            bt: self.bt,
            ct: self.ct,
            t: self.t,
            ag: self.ag,
            bg: self.bg,
            miller_out: self.miller_out,
            mode: self.mode,
            poseidon_params: self.poseidon_params@,
        }
    }
}

impl FqCircuit {
    #[verifier::type_invariant]
    pub(crate) closed spec fn inv(self) -> bool {
        self@.consistent() && self.c_in_base == embedding(self.c)
    }

    /// Samples two scalars from `rng` and makes the instance that they give.
    /// Whatever was drawn, the result is what `from_scalars` returns for it.
    pub fn new(rng: &mut StdRng, mode: OpMode, params: HashParameters) -> (r: Result<FqCircuit, CircuitError>)
        ensures
            exists|a: Fr, b: Fr, t: GtElement, m: GtElement| #[trigger]
                sampled(r, a, b, t, m, mode, params@) && is_generators_pairing(t) && is_generators_miller(m),
    {
        let a = random_scalar(rng);
        let b = random_scalar(rng);
        FqCircuit::from_scalars(a, b, mode, params)
    }

    /// Makes the instance that the scalars `a` and `b` give.  The pairing of
    /// the generators and their Miller loop are computed here; the result is
    /// what `from_parts` returns for them.
    pub fn from_scalars(a: Fr, b: Fr, mode: OpMode, params: HashParameters) -> (r: Result<FqCircuit, CircuitError>)
        ensures
            exists|t: GtElement, m: GtElement| #[trigger]
                sampled(r, a, b, t, m, mode, params@) && is_generators_pairing(t) && is_generators_miller(m),
    {
        let t = pair_generators();
        let miller_out = miller_generators();
        let r = FqCircuit::from_parts(a, b, &t, &miller_out, mode, params);
        assert(sampled(r, a, b, t, miller_out, mode, params@) && is_generators_pairing(t)
            && is_generators_miller(miller_out));
        r
    }

    /// Makes the instance that the scalars `a` and `b` give, with `t` for
    /// the pairing of the generators and `miller_out` for their Miller loop,
    /// after checking it: the pairing of `c·G1` must equal `t^c`, `t^a · t^b`
    /// and the product of the pairings of `a·G1` and `b·G1`, and `t` must be
    /// the final exponentiation of `miller_out`.
    pub fn from_parts(
        a: Fr,
        b: Fr,
        t: &GtElement,
        miller_out: &GtElement,
        mode: OpMode,
        params: HashParameters,
    ) -> (r: Result<FqCircuit, CircuitError>)
        ensures
            sampled(r, a, b, *t, *miller_out, mode, params@),
    {
        let c = scalar_add(&a, &b);
        let ag = g1_multiple(&a);
        let b_g1 = g1_multiple(&b);
        let c_g1 = g1_multiple(&c);
        let bg = g2_multiple(&b);
        let at = pair_with_generator(&ag);
        let bt = pair_with_generator(&b_g1);
        let ct = pair_with_generator(&c_g1);
        let finished = match gt_final_exponentiation(miller_out) {
            Some(x) => gt_eq(&x, t),
            None => false,
        };
        let by_power = gt_pow(t, &c);
        let t_a = gt_pow(t, &a);
        let t_b = gt_pow(t, &b);
        let by_powers = gt_mul(&t_a, &t_b);
        let by_pairings = gt_mul(&at, &bt);
        if !finished || !gt_eq(&ct, &by_power) || !gt_eq(&ct, &by_powers) || !gt_eq(&ct, &by_pairings) {
            return Err(CircuitError::SampleInconsistency);
        }
        let c_in_base = embed_scalar(&c);
        Ok(
            FqCircuit {
                c,
                at,
                bt,
                ct,
                t: t.clone(),
                ag,
                bg,
                miller_out: miller_out.clone(),
                mode,
                poseidon_params: params,
                c_in_base,
            },
        )
    }
}

impl FqCircuit {
    /// The sum of the two sampled scalars.
    pub fn c(&self) -> (r: &Fr)
        ensures
            *r == self@.c,
    {
        &self.c
    }

    /// The pairing of `a·G1` with `G2`.
    pub fn at(&self) -> (r: &GtElement)
        ensures
            *r == self@.at,
    {
        &self.at
    }

    /// The pairing of `b·G1` with `G2`.
    pub fn bt(&self) -> (r: &GtElement)
        ensures
            *r == self@.bt,
    {
        &self.bt
    }

    /// The pairing of `c·G1` with `G2`.
    pub fn ct(&self) -> (r: &GtElement)
        ensures
            *r == self@.ct,
    {
        &self.ct
    }

    /// The pairing of the two generators.
    pub fn t(&self) -> (r: &GtElement)
        ensures
            *r == self@.t,
    {
        &self.t
    }

    /// The point `a·G1`.
    pub fn ag(&self) -> (r: &G1Point)
        ensures
            *r == self@.ag,
    {
        &self.ag
    }

    /// The point `b·G2`.
    pub fn bg(&self) -> (r: &G2Point)
        ensures
            *r == self@.bg,
    {
        &self.bg
    }

    /// The Miller loop of the two generators.
    pub fn miller_out(&self) -> (r: &GtElement)
        ensures
            *r == self@.miller_out,
    {
        &self.miller_out
    }

    /// The operation that the circuit is to encode.
    pub fn mode(&self) -> (r: &OpMode)
        ensures
            *r == self@.mode,
    {
        &self.mode
    }

    /// The scalar `c`, carried over into the base field.
    pub fn c_in_base(&self) -> (r: &Fq)
        ensures
            *r == embedding(self@.c),
            base_value(*r) == scalar_value(self@.c),
    {
        proof {
            use_type_invariant(self);
        }
        &self.c_in_base
    }

    /// Hands out the invariant: the instance is consistent.
    pub fn consistency(&self)
        ensures
            self@.consistent(),
    {
        proof {
            use_type_invariant(self);
        }
    }

    /// The configuration of the sponge.
    pub fn poseidon_params(&self) -> (r: &HashParameters)
        ensures
            r@ == self@.poseidon_params,
    {
        &self.poseidon_params
    }
}

} // verus!
