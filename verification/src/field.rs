//! The prime fields of the benchmark: the scalar field `Fr` of BLS12-377,
//! its base field `Fq`, and the scalar field of BLS12-381, which serves as
//! a field unrelated to both.
//!
//! A field element is a value of `ark_ff`, opaque to the verifier.  Its type
//! lets any caller build one from raw limbs, reduced or not, so nothing here
//! rests on an element being reduced: what the contracts say of a scalar
//! they say through the bits that `into_repr` returns for it.

use vstd::arithmetic::power2::{lemma2_to64, lemma_pow2_adds, pow2};
use vstd::prelude::*;

use ark_bls12_377::{Fq, Fr};
use rand::rngs::StdRng;

verus! {

#[verifier::external_type_specification]
#[verifier::external_body]
#[verifier::reject_recursive_types(P)]
pub struct ExFp256<P>(ark_ff::Fp256<P>);

#[verifier::external_type_specification]
#[verifier::external_body]
#[verifier::reject_recursive_types(P)]
pub struct ExFp384<P>(ark_ff::Fp384<P>);

#[verifier::external_type_specification]
#[verifier::external_body]
pub struct ExFrParameters(ark_bls12_377::FrParameters);

#[verifier::external_type_specification]
#[verifier::external_body]
pub struct ExFqParameters(ark_bls12_377::FqParameters);

#[verifier::external_type_specification]
#[verifier::external_body]
pub struct ExBls381FrParameters(ark_bls12_381::FrParameters);

#[verifier::external_type_specification]
#[verifier::external_body]
pub struct ExStdRng(StdRng);

/// The order of the base field `Fq` of BLS12-377.
pub open spec fn base_modulus() -> nat {
    258664426012969094010652733694893533536393512754914660539884262666720468348340822774968888139573360124440321458177nat
}

/// The number that a little-endian bit string stands for.
pub open spec fn bits_to_nat(bits: Seq<bool>) -> nat
    decreases bits.len(),
{
    if bits.len() == 0 {
        0
    } else {
        (if bits[0] { 1nat } else { 0nat }) + 2 * bits_to_nat(bits.drop_first())
    }
}

/// The bits of a scalar's canonical integer, least significant first: what
/// `PrimeField::into_repr` and then `BigInteger::to_bits_le` return for it.
pub uninterp spec fn scalar_bits_of(x: Fr) -> Seq<bool>;

/// The integer of a scalar: the number that its bits stand for.
pub open spec fn scalar_value(x: Fr) -> nat {
    bits_to_nat(scalar_bits_of(x))
}

/// The canonical integer of a base-field element: what
/// `PrimeField::into_repr` returns for it, read as a number.
pub uninterp spec fn base_value(x: Fq) -> nat;

/// The sum of two scalars, as `ark_ff` computes it.
pub uninterp spec fn scalar_sum(a: Fr, b: Fr) -> Fr;

/// The product of two BLS12-381 scalars, as `ark_ff` computes it.
pub uninterp spec fn bls381_scalar_product(a: ark_bls12_381::Fr, b: ark_bls12_381::Fr) -> ark_bls12_381::Fr;

/// The base-field element with the canonical integer that a little-endian
/// bit string stands for, where there is one.
pub uninterp spec fn base_of_bits(bits: Seq<bool>) -> Option<Fq>;

/// Draws a scalar from `rng` with `UniformRand::rand`.  Nothing is claimed
/// of the outcome.
#[verifier::external_body]
pub(crate) fn random_scalar(rng: &mut StdRng) -> (s: Fr) {
    <Fr as ark_std::UniformRand>::rand(rng)
}

/// Draws a BLS12-381 scalar from the thread's generator, `rand::thread_rng`,
/// with `UniformRand::rand`.  Nothing is claimed of the outcome.
#[verifier::external_body]
pub(crate) fn random_bls381_scalar() -> (s: ark_bls12_381::Fr) {
    <ark_bls12_381::Fr as ark_std::UniformRand>::rand(&mut rand::thread_rng())
}

/// `Add` of `Fp256`.
#[verifier::external_body]
pub(crate) fn scalar_add(a: &Fr, b: &Fr) -> (c: Fr)
    ensures
        c == scalar_sum(*a, *b),
{
    *a + *b
}

/// `Mul` of `Fp256`.
#[verifier::external_body]
pub(crate) fn bls381_scalar_mul(a: &ark_bls12_381::Fr, b: &ark_bls12_381::Fr) -> (c: ark_bls12_381::Fr)
    ensures
        c == bls381_scalar_product(*a, *b),
{
    *a * *b
}

/// `PrimeField::into_repr` followed by `BigInteger::to_bits_le`: the bits
/// of the four limbs that `into_repr` returns, 256 in all, least significant
/// first.
#[verifier::external_body]
pub(crate) fn scalar_bits_le(x: &Fr) -> (bits: Vec<bool>)
    ensures
        bits@ == scalar_bits_of(*x),
        bits@.len() == 256,
{
    ark_ff::BigInteger::to_bits_le(&ark_ff::PrimeField::into_repr(x))
}

/// `BigInteger384::from_bits_le` followed by `PrimeField::from_repr`:
/// the element whose canonical integer the bits stand for, `None` where that
/// integer is not below the field's order.  `from_bits_le` writes one of
/// its six limbs for each 64 bits, so it is given no more than 384 bits.
#[verifier::external_body]
pub(crate) fn base_from_bits_le(bits: &Vec<bool>) -> (r: Option<Fq>)
    requires
        bits@.len() <= 384,
    ensures
        r == base_of_bits(bits@),
        r is Some <==> bits_to_nat(bits@) < base_modulus(),
        r matches Some(x) ==> base_value(x) == bits_to_nat(bits@),
{
    <Fq as ark_ff::PrimeField>::from_repr(
        <ark_ff::BigInteger384 as ark_ff::BigInteger>::from_bits_le(bits),
    )
}

/// The base-field element that is read from the bits of `x`.
pub open spec fn embedding(x: Fr) -> Fq {
    base_of_bits(scalar_bits_of(x)).unwrap()
}

/// A string of bits stands for a number below two to the power of its
/// length.
pub proof fn bits_are_below_their_power(bits: Seq<bool>)
    ensures
        bits_to_nat(bits) < pow2(bits.len()),
    decreases bits.len(),
{
    lemma2_to64();
    if bits.len() > 0 {
        bits_are_below_their_power(bits.drop_first());
        lemma_pow2_adds(1, (bits.len() - 1) as nat);
    }
}

/// Two to the power of 256 is below the order of the base field.
pub proof fn base_field_holds_256_bits()
    ensures
        pow2(256) < base_modulus(),
{
    lemma2_to64();
    lemma_pow2_adds(64, 64);
    lemma_pow2_adds(128, 128);
    let p64 = pow2(64);
    let p128 = pow2(128);
    assert(p128 == 0x1_0000_0000_0000_0000_0000_0000_0000_0000) by (nonlinear_arith)
        requires
            p128 == p64 * p64,
            p64 == 0x1_0000_0000_0000_0000,
    ;
    assert(pow2(256) == 0x1_0000_0000_0000_0000_0000_0000_0000_0000_0000_0000_0000_0000_0000_0000_0000_0000)
        by (nonlinear_arith)
        requires
            pow2(256) == p128 * p128,
            p128 == 0x1_0000_0000_0000_0000_0000_0000_0000_0000,
    ;
}

/// Carries a scalar over into the base field: the result has the integer
/// that the scalar's bits stand for.  There are 256 of them, and every
/// number of 256 bits is below the order of the base field.
pub fn embed_scalar(x: &Fr) -> (y: Fq)
    ensures
        y == embedding(*x),
        base_value(y) == scalar_value(*x),
{
    let bits = scalar_bits_le(x);
    proof {
        bits_are_below_their_power(bits@);
        base_field_holds_256_bits();
    }
    let found = base_from_bits_le(&bits);
    found.unwrap()
}

} // verus!
