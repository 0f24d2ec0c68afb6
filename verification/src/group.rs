//! The groups of the BLS12-377 pairing: points of the two source groups and
//! elements of the target group.
//!
//! The values are those of `ark_ec` and `ark_ff`.  Their types take a curve
//! description as a bounded parameter, which the verifier cannot be told of,
//! so each is held in a struct of this crate that the verifier takes as
//! opaque.  The results of the group operations are named, not described:
//! the contracts of this crate relate them to one another.

use vstd::prelude::*;

use ark_bls12_377::Fr;

use crate::field::scalar_value;

verus! {

/// A point of the first source group, in the projective form of `ark_ec`.
#[verifier::external_body]
#[derive(Debug)]
pub struct G1Point {
    pub(crate) inner: ark_bls12_377::G1Projective,
}

/// A point of the second source group, in the projective form of `ark_ec`.
#[verifier::external_body]
#[derive(Debug)]
pub struct G2Point {
    pub(crate) inner: ark_bls12_377::G2Projective,
}

/// An element of the field that hosts the target group.
#[verifier::external_body]
#[derive(Debug)]
pub struct GtElement {
    pub(crate) inner: ark_bls12_377::Fq12,
}

impl Clone for GtElement {
    /// Copies the element, as `Copy` of the target field does.
    #[verifier::external_body]
    fn clone(&self) -> (r: Self)
        ensures
            r == *self,
    {
        GtElement { inner: self.inner }
    }
}

/// The generator of the first source group, multiplied by a scalar.
pub uninterp spec fn g1_multiple_of(s: Fr) -> G1Point;

/// The generator of the second source group, multiplied by a scalar.
pub uninterp spec fn g2_multiple_of(s: Fr) -> G2Point;

/// The pairing of a point with the generator of the second source group.
pub uninterp spec fn generator_pairing(p: G1Point) -> GtElement;

/// The Miller loop of a point with the generator of the second source
/// group: the pairing before its final exponentiation.
pub uninterp spec fn generator_miller(p: G1Point) -> GtElement;

/// A target-group element raised to a number.
pub uninterp spec fn gt_power(t: GtElement, e: nat) -> GtElement;

/// The final exponentiation of a Miller loop's output, where it has one.
pub uninterp spec fn final_exponentiation_of(m: GtElement) -> Option<GtElement>;

/// The product of two target-group elements.
pub uninterp spec fn gt_product(x: GtElement, y: GtElement) -> GtElement;

/// Whether `t` is the pairing of the two generators: the pairing, with the
/// generator of the second source group, of the generator of the first taken
/// once.
pub open spec fn is_generators_pairing(t: GtElement) -> bool {
    forall|s: Fr| scalar_value(s) == 1 ==> t == generator_pairing(#[trigger] g1_multiple_of(s))
}

/// Whether `m` is the Miller loop of the two generators: the Miller loop,
/// with the generator of the second source group, of the generator of the
/// first taken once.  Its final exponentiation is the pairing of the
/// generators.
pub open spec fn is_generators_miller(m: GtElement) -> bool {
    forall|s: Fr| scalar_value(s) == 1 ==> m == generator_miller(#[trigger] g1_multiple_of(s))
}

/// `ProjectiveCurve::prime_subgroup_generator` of the first source group,
/// multiplied by `s` with `MulAssign`.
#[verifier::external_body]
pub(crate) fn g1_multiple(s: &Fr) -> (p: G1Point)
    ensures
        p == g1_multiple_of(*s),
{
    let mut g = <ark_bls12_377::G1Projective as ark_ec::ProjectiveCurve>::prime_subgroup_generator();
    core::ops::MulAssign::mul_assign(&mut g, *s);
    G1Point { inner: g }
}

/// `ProjectiveCurve::prime_subgroup_generator` of the second source group,
/// multiplied by `s` with `MulAssign`.
#[verifier::external_body]
pub(crate) fn g2_multiple(s: &Fr) -> (p: G2Point)
    ensures
        p == g2_multiple_of(*s),
{
    let mut g = <ark_bls12_377::G2Projective as ark_ec::ProjectiveCurve>::prime_subgroup_generator();
    core::ops::MulAssign::mul_assign(&mut g, *s);
    G2Point { inner: g }
}

/// `PairingEngine::pairing` of `p` with the generator of the second source
/// group.
#[verifier::external_body]
pub(crate) fn pair_with_generator(p: &G1Point) -> (t: GtElement)
    ensures
        t == generator_pairing(*p),
{
    let g2 = <ark_bls12_377::G2Projective as ark_ec::ProjectiveCurve>::prime_subgroup_generator();
    GtElement { inner: <ark_bls12_377::Bls12_377 as ark_ec::PairingEngine>::pairing(p.inner, g2) }
}

/// `PairingEngine::pairing` of the two generators.  The generator of the
/// first source group is that generator taken once, so this is the pairing
/// that `pair_with_generator` computes for it.
#[verifier::external_body]
pub(crate) fn pair_generators() -> (t: GtElement)
    ensures
        is_generators_pairing(t),
{
    let g1 = <ark_bls12_377::G1Projective as ark_ec::ProjectiveCurve>::prime_subgroup_generator();
    let g2 = <ark_bls12_377::G2Projective as ark_ec::ProjectiveCurve>::prime_subgroup_generator();
    GtElement { inner: <ark_bls12_377::Bls12_377 as ark_ec::PairingEngine>::pairing(g1, g2) }
}

/// `PairingEngine::miller_loop` over the one pair of the two generators,
/// both prepared from their affine forms.  The generator of the first
/// source group is that generator taken once and has the same affine form,
/// so this is the Miller loop of that multiple with the second generator.
#[verifier::external_body]
pub(crate) fn miller_generators() -> (m: GtElement)
    ensures
        forall|s: Fr| scalar_value(s) == 1 ==> m == generator_miller(#[trigger] g1_multiple_of(s)),
{
    let g1 = <ark_bls12_377::G1Affine as ark_ec::AffineCurve>::prime_subgroup_generator();
    let g2 = <ark_bls12_377::G2Affine as ark_ec::AffineCurve>::prime_subgroup_generator();
    let pair = (g1.into(), g2.into());
    GtElement { inner: <ark_bls12_377::Bls12_377 as ark_ec::PairingEngine>::miller_loop([&pair]) }
}

/// `PairingEngine::final_exponentiation`.
#[verifier::external_body]
pub(crate) fn gt_final_exponentiation(m: &GtElement) -> (r: Option<GtElement>)
    ensures
        r == final_exponentiation_of(*m),
{
    <ark_bls12_377::Bls12_377 as ark_ec::PairingEngine>::final_exponentiation(&m.inner).map(
        |v| GtElement { inner: v },
    )
}

/// `Field::pow` with the limbs of the exponent's canonical integer, which
/// `PrimeField::into_repr` returns: `t` raised to that integer.
#[verifier::external_body]
pub(crate) fn gt_pow(t: &GtElement, e: &Fr) -> (r: GtElement)
    ensures
        r == gt_power(*t, scalar_value(*e)),
{
    GtElement { inner: ark_ff::Field::pow(&t.inner, &ark_ff::PrimeField::into_repr(e)) }
}

/// `Mul` of the target field.
#[verifier::external_body]
pub(crate) fn gt_mul(x: &GtElement, y: &GtElement) -> (r: GtElement)
    ensures
        r == gt_product(*x, *y),
{
    GtElement { inner: x.inner * y.inner }
}

/// `PartialEq` of the target field, which compares coefficient by
/// coefficient: two elements are equal exactly when they are the same
/// element.
#[verifier::external_body]
pub(crate) fn gt_eq(x: &GtElement, y: &GtElement) -> (r: bool)
    ensures
        r == (*x == *y),
{
    x.inner == y.inner
}

impl PartialEq for GtElement {
    fn eq(&self, other: &Self) -> (r: bool) {
        gt_eq(self, other)
    }
}

impl vstd::std_specs::cmp::PartialEqSpecImpl for GtElement {
    open spec fn obeys_eq_spec() -> bool {
        true
    }

    open spec fn eq_spec(&self, other: &Self) -> bool {
        *self == *other
    }
}

} // verus!
