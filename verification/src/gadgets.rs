//! The calls into the gadget libraries, one function for each.
//!
//! A constraint system of `ark_relations` is shared by reference counting;
//! every variable that a gadget returns holds a handle to the system that it
//! lives in, and a gadget that takes variables writes its constraints there.
//! The types of the system and of its variables take fields and curves as
//! bounded parameters, which the verifier cannot be told of, so each is held
//! in a struct of this crate that the verifier takes as opaque.  Those
//! structs are made here and nowhere else: a system by `new_system`, always
//! a live one in proving mode with the default optimisation goal, and a
//! variable only by a gadget, in the system of its operands.
//!
//! A constraint system is a collection that the gadgets fill.  What it
//! holds is known here by two names: the number of its constraints, and the
//! answer that it gives when asked whether its assignment satisfies them.
//! A gadget writes through the handles inside its operands, so every
//! function here that may write takes the system itself as `&mut`, beside
//! the operands that live in it; the callers, the methods of one system,
//! hand each function that system and variables made through it.
//!
//! What a gadget does inside the system takes pages to say, but it is a
//! function of the system and of the operands alone.  So each call has a
//! name for its effect: the system as it is after the call, together with
//! what the call returned.  Beside the name stands one fact: the number of
//! constraints has not fallen, because the one place in the gadget
//! libraries and the engine that writes the number adds one to it.  What a
//! call returns on failure is the library's own error.

#![allow(unused_variables)]

use vstd::prelude::*;

use ark_bls12_377::constraints::{Fq12Var, FqVar, G1PreparedVar, G1Var, G2PreparedVar, G2Var, PairingVar};
use ark_bls12_377::{Bls12_377, Fq, Fr};
use ark_nonnative_field::NonNativeFieldVar;
use ark_r1cs_std::alloc::AllocVar;
use ark_r1cs_std::bits::boolean::Boolean;
use ark_r1cs_std::eq::EqGadget;
use ark_r1cs_std::fields::FieldVar;
use ark_r1cs_std::groups::CurveVar;
use ark_r1cs_std::pairing::PairingVar as PairingGadget;
use ark_r1cs_std::{R1CSVar, ToBitsGadget, ToConstraintFieldGadget};
use ark_relations::r1cs::{ConstraintSystem, ConstraintSystemRef, SynthesisError};
use ark_sponge::constraints::CryptographicSpongeVar;
use ark_sponge::poseidon::constraints::PoseidonSpongeVar;
use ark_sponge::poseidon::PoseidonParameters;

use crate::group::{G1Point, G2Point, GtElement};
use crate::params::{HashParameters, HashParametersView};
use crate::system::Wire;

verus! {

/// A handle to a constraint system over the base field.
#[verifier::external_body]
pub struct RawSystem {
    inner: ConstraintSystemRef<Fq>,
}

/// A variable for a target-group element.
#[verifier::external_body]
pub struct RawGt {
    inner: Fq12Var,
}

/// A variable for a point of the first source group.
#[verifier::external_body]
pub struct RawG1 {
    inner: G1Var,
}

/// A variable for a point of the second source group.
#[verifier::external_body]
pub struct RawG2 {
    inner: G2Var,
}

/// A point of the first source group, prepared for pairing.
#[verifier::external_body]
pub struct RawG1Prepared {
    inner: G1PreparedVar,
}

/// A point of the second source group, prepared for pairing.
#[verifier::external_body]
pub struct RawG2Prepared {
    inner: G2PreparedVar,
}

/// A variable for a base-field element.
#[verifier::external_body]
pub struct RawBase {
    inner: FqVar,
}

/// A variable for a scalar, held as an element of a foreign field.
#[verifier::external_body]
pub struct RawForeign {
    inner: NonNativeFieldVar<Fr, Fq>,
}

/// The boolean variables of a bit decomposition, least significant first.
#[verifier::external_body]
pub struct RawBits {
    inner: Vec<Boolean<Fq>>,
}

/// The base-field variables that encode a larger value.
#[verifier::external_body]
pub struct RawElements {
    inner: Vec<FqVar>,
}

/// A Poseidon sponge inside a constraint system.
#[verifier::external_body]
pub struct RawSponge {
    inner: PoseidonSpongeVar<Fq>,
}

/// The number of constraints in a system: what
/// `ConstraintSystemRef::num_constraints` returns for it.
pub uninterp spec fn constraints_in(cs: RawSystem) -> nat;

/// Whether the assignment of a system satisfies its constraints: what
/// `ConstraintSystemRef::is_satisfied` returns for it.
pub uninterp spec fn satisfaction_of(cs: RawSystem) -> Result<bool, SynthesisError>;

/// The answer of a system that is satisfied.
pub open spec fn satisfied() -> Result<bool, SynthesisError> {
    Ok(true)
}

/// `ConstraintSystem::new_ref`: a fresh system in proving mode.  It holds no
/// constraint, and with none to check it answers that it is satisfied.
#[verifier::external_body]
pub(crate) fn new_system() -> (made: RawSystem)
    ensures
        constraints_in(made) == 0,
        satisfaction_of(made) == satisfied(),
{
    RawSystem { inner: ConstraintSystem::<Fq>::new_ref() }
}

/// `ConstraintSystemRef::is_satisfied`.
#[verifier::external_body]
pub(crate) fn system_is_satisfied(cs: &RawSystem) -> (r: Result<bool, SynthesisError>)
    ensures
        r == satisfaction_of(*cs),
{
    cs.inner.is_satisfied()
}

/// `ConstraintSystemRef::num_constraints`.
#[verifier::external_body]
pub(crate) fn system_num_constraints(cs: &RawSystem) -> (n: usize)
    ensures
        n == constraints_in(*cs),
{
    cs.inner.num_constraints()
}

/// What allocating a witness for a target-group element does: the system after
/// `AllocVar::new_witness`, and what the call returned.
pub uninterp spec fn alloc_gt_effect(cs: RawSystem, value: GtElement) -> (RawSystem, Result<RawGt, SynthesisError>);

/// `AllocVar::new_witness` of the target-group variable.
#[verifier::external_body]
pub(crate) fn alloc_gt(cs: &mut RawSystem, value: &GtElement) -> (r: Result<RawGt, SynthesisError>)
    ensures
        *final(cs) == alloc_gt_effect(*old(cs), *value).0,
        r == alloc_gt_effect(*old(cs), *value).1,
        constraints_in(*final(cs)) >= constraints_in(*old(cs)),
{
    Fq12Var::new_witness(cs.inner.clone(), || Ok(value.inner)).map(|v| RawGt { inner: v })
}

/// What allocating a witness for a point of the first source group does: the system after
/// `AllocVar::new_witness`, and what the call returned.
pub uninterp spec fn alloc_g1_effect(cs: RawSystem, value: G1Point) -> (RawSystem, Result<RawG1, SynthesisError>);

/// `AllocVar::new_witness` of the variable for the first source group.
#[verifier::external_body]
pub(crate) fn alloc_g1(cs: &mut RawSystem, value: &G1Point) -> (r: Result<RawG1, SynthesisError>)
    ensures
        *final(cs) == alloc_g1_effect(*old(cs), *value).0,
        r == alloc_g1_effect(*old(cs), *value).1,
        constraints_in(*final(cs)) >= constraints_in(*old(cs)),
{
    G1Var::new_witness(cs.inner.clone(), || Ok(value.inner)).map(|v| RawG1 { inner: v })
}

/// What allocating a witness for a point of the second source group does: the system after
/// `AllocVar::new_witness`, and what the call returned.
pub uninterp spec fn alloc_g2_effect(cs: RawSystem, value: G2Point) -> (RawSystem, Result<RawG2, SynthesisError>);

/// `AllocVar::new_witness` of the variable for the second source group.
#[verifier::external_body]
pub(crate) fn alloc_g2(cs: &mut RawSystem, value: &G2Point) -> (r: Result<RawG2, SynthesisError>)
    ensures
        *final(cs) == alloc_g2_effect(*old(cs), *value).0,
        r == alloc_g2_effect(*old(cs), *value).1,
        constraints_in(*final(cs)) >= constraints_in(*old(cs)),
{
    G2Var::new_witness(cs.inner.clone(), || Ok(value.inner)).map(|v| RawG2 { inner: v })
}

/// What allocating a witness for a base-field element does: the system after
/// `AllocVar::new_witness`, and what the call returned.
pub uninterp spec fn alloc_base_effect(cs: RawSystem, value: Fq) -> (RawSystem, Result<RawBase, SynthesisError>);

/// `AllocVar::new_witness` of the base-field variable.
#[verifier::external_body]
pub(crate) fn alloc_base(cs: &mut RawSystem, value: &Fq) -> (r: Result<RawBase, SynthesisError>)
    ensures
        *final(cs) == alloc_base_effect(*old(cs), *value).0,
        r == alloc_base_effect(*old(cs), *value).1,
        constraints_in(*final(cs)) >= constraints_in(*old(cs)),
{
    FqVar::new_witness(cs.inner.clone(), || Ok(*value)).map(|v| RawBase { inner: v })
}

/// What allocating a witness for a scalar, held as a foreign field element does: the system after
/// `AllocVar::new_witness`, and what the call returned.
pub uninterp spec fn alloc_foreign_effect(cs: RawSystem, value: Fr) -> (RawSystem, Result<RawForeign, SynthesisError>);

/// `AllocVar::new_witness` of the foreign-field variable.
#[verifier::external_body]
pub(crate) fn alloc_foreign(cs: &mut RawSystem, value: &Fr) -> (r: Result<RawForeign, SynthesisError>)
    ensures
        *final(cs) == alloc_foreign_effect(*old(cs), *value).0,
        r == alloc_foreign_effect(*old(cs), *value).1,
        constraints_in(*final(cs)) >= constraints_in(*old(cs)),
{
    NonNativeFieldVar::<Fr, Fq>::new_witness(cs.inner.clone(), || Ok(*value)).map(|v| RawForeign { inner: v })
}

/// The effect of `ToBitsGadget::to_bits_le` on a base-field variable: the system after the call,
/// and what the call returned.
pub uninterp spec fn base_var_bits_effect(cs: RawSystem, x: RawBase) -> (RawSystem, Result<RawBits, SynthesisError>);

/// `ToBitsGadget::to_bits_le` of a base-field variable.
#[verifier::external_body]
pub(crate) fn base_var_bits(cs: &mut RawSystem, x: &RawBase) -> (r: Result<RawBits, SynthesisError>)
    ensures
        *final(cs) == base_var_bits_effect(*old(cs), *x).0,
        r == base_var_bits_effect(*old(cs), *x).1,
        constraints_in(*final(cs)) >= constraints_in(*old(cs)),
{
    x.inner.to_bits_le().map(|v| RawBits { inner: v })
}

/// The effect of `ToBitsGadget::to_bits_le` on a foreign-field variable: the system after the call,
/// and what the call returned.
pub uninterp spec fn foreign_var_bits_effect(cs: RawSystem, x: RawForeign) -> (RawSystem, Result<RawBits, SynthesisError>);

/// `ToBitsGadget::to_bits_le` of a foreign-field variable.
#[verifier::external_body]
pub(crate) fn foreign_var_bits(cs: &mut RawSystem, x: &RawForeign) -> (r: Result<RawBits, SynthesisError>)
    ensures
        *final(cs) == foreign_var_bits_effect(*old(cs), *x).0,
        r == foreign_var_bits_effect(*old(cs), *x).1,
        constraints_in(*final(cs)) >= constraints_in(*old(cs)),
{
    x.inner.to_bits_le().map(|v| RawBits { inner: v })
}

/// The effect of `ToConstraintFieldGadget::to_constraint_field` on a target-group variable: the system after the call,
/// and what the call returned.
pub uninterp spec fn gt_var_elements_effect(cs: RawSystem, x: RawGt) -> (RawSystem, Result<RawElements, SynthesisError>);

/// `ToConstraintFieldGadget::to_constraint_field` of a target-group variable.
#[verifier::external_body]
pub(crate) fn gt_var_elements(cs: &mut RawSystem, x: &RawGt) -> (r: Result<RawElements, SynthesisError>)
    ensures
        *final(cs) == gt_var_elements_effect(*old(cs), *x).0,
        r == gt_var_elements_effect(*old(cs), *x).1,
        constraints_in(*final(cs)) >= constraints_in(*old(cs)),
{
    x.inner.to_constraint_field().map(|v| RawElements { inner: v })
}

/// The effect of `ToConstraintFieldGadget::to_constraint_field` on a foreign-field variable: the system after the call,
/// and what the call returned.
pub uninterp spec fn foreign_var_elements_effect(cs: RawSystem, x: RawForeign) -> (RawSystem, Result<RawElements, SynthesisError>);

/// `ToConstraintFieldGadget::to_constraint_field` of a foreign-field variable.
#[verifier::external_body]
pub(crate) fn foreign_var_elements(cs: &mut RawSystem, x: &RawForeign) -> (r: Result<RawElements, SynthesisError>)
    ensures
        *final(cs) == foreign_var_elements_effect(*old(cs), *x).0,
        r == foreign_var_elements_effect(*old(cs), *x).1,
        constraints_in(*final(cs)) >= constraints_in(*old(cs)),
{
    x.inner.to_constraint_field().map(|v| RawElements { inner: v })
}

/// The effect of `PairingVar::prepare_g1`: the system after the call,
/// and what the call returned.
pub uninterp spec fn prepare_g1_effect(cs: RawSystem, x: RawG1) -> (RawSystem, Result<RawG1Prepared, SynthesisError>);

/// `PairingVar::prepare_g1`.
#[verifier::external_body]
pub(crate) fn prepare_g1(cs: &mut RawSystem, x: &RawG1) -> (r: Result<RawG1Prepared, SynthesisError>)
    ensures
        *final(cs) == prepare_g1_effect(*old(cs), *x).0,
        r == prepare_g1_effect(*old(cs), *x).1,
        constraints_in(*final(cs)) >= constraints_in(*old(cs)),
{
    <PairingVar as PairingGadget<Bls12_377>>::prepare_g1(&x.inner).map(|v| RawG1Prepared { inner: v })
}

/// The effect of `PairingVar::prepare_g2`: the system after the call,
/// and what the call returned.
pub uninterp spec fn prepare_g2_effect(cs: RawSystem, x: RawG2) -> (RawSystem, Result<RawG2Prepared, SynthesisError>);

/// `PairingVar::prepare_g2`.
#[verifier::external_body]
pub(crate) fn prepare_g2(cs: &mut RawSystem, x: &RawG2) -> (r: Result<RawG2Prepared, SynthesisError>)
    ensures
        *final(cs) == prepare_g2_effect(*old(cs), *x).0,
        r == prepare_g2_effect(*old(cs), *x).1,
        constraints_in(*final(cs)) >= constraints_in(*old(cs)),
{
    <PairingVar as PairingGadget<Bls12_377>>::prepare_g2(&x.inner).map(|v| RawG2Prepared { inner: v })
}

/// The effect of `PairingVar::final_exponentiation`: the system after the call,
/// and what the call returned.
pub uninterp spec fn final_exponentiation_effect(cs: RawSystem, x: RawGt) -> (RawSystem, Result<RawGt, SynthesisError>);

/// `PairingVar::final_exponentiation`.
#[verifier::external_body]
pub(crate) fn final_exponentiation(cs: &mut RawSystem, x: &RawGt) -> (r: Result<RawGt, SynthesisError>)
    ensures
        *final(cs) == final_exponentiation_effect(*old(cs), *x).0,
        r == final_exponentiation_effect(*old(cs), *x).1,
        constraints_in(*final(cs)) >= constraints_in(*old(cs)),
{
    <PairingVar as PairingGadget<Bls12_377>>::final_exponentiation(&x.inner).map(|v| RawGt { inner: v })
}

/// The effect of `FieldVar::pow_le` on a target-group variable: the system after the call,
/// and what the call returned.
pub uninterp spec fn gt_var_pow_effect(cs: RawSystem, a: RawGt, b: RawBits) -> (RawSystem, Result<RawGt, SynthesisError>);

/// `FieldVar::pow_le` of a target-group variable.
#[verifier::external_body]
pub(crate) fn gt_var_pow(cs: &mut RawSystem, a: &RawGt, b: &RawBits) -> (r: Result<RawGt, SynthesisError>)
    ensures
        *final(cs) == gt_var_pow_effect(*old(cs), *a, *b).0,
        r == gt_var_pow_effect(*old(cs), *a, *b).1,
        constraints_in(*final(cs)) >= constraints_in(*old(cs)),
{
    a.inner.pow_le(&b.inner).map(|v| RawGt { inner: v })
}

/// The effect of `CurveVar::scalar_mul_le` in the first source group: the system after the call,
/// and what the call returned.
pub uninterp spec fn g1_var_scalar_mul_effect(cs: RawSystem, a: RawG1, b: RawBits) -> (RawSystem, Result<RawG1, SynthesisError>);

/// `CurveVar::scalar_mul_le` in the first source group.
#[verifier::external_body]
pub(crate) fn g1_var_scalar_mul(cs: &mut RawSystem, a: &RawG1, b: &RawBits) -> (r: Result<RawG1, SynthesisError>)
    ensures
        *final(cs) == g1_var_scalar_mul_effect(*old(cs), *a, *b).0,
        r == g1_var_scalar_mul_effect(*old(cs), *a, *b).1,
        constraints_in(*final(cs)) >= constraints_in(*old(cs)),
{
    a.inner.scalar_mul_le(b.inner.iter()).map(|v| RawG1 { inner: v })
}

/// The effect of `CurveVar::scalar_mul_le` in the second source group: the system after the call,
/// and what the call returned.
pub uninterp spec fn g2_var_scalar_mul_effect(cs: RawSystem, a: RawG2, b: RawBits) -> (RawSystem, Result<RawG2, SynthesisError>);

/// `CurveVar::scalar_mul_le` in the second source group.
#[verifier::external_body]
pub(crate) fn g2_var_scalar_mul(cs: &mut RawSystem, a: &RawG2, b: &RawBits) -> (r: Result<RawG2, SynthesisError>)
    ensures
        *final(cs) == g2_var_scalar_mul_effect(*old(cs), *a, *b).0,
        r == g2_var_scalar_mul_effect(*old(cs), *a, *b).1,
        constraints_in(*final(cs)) >= constraints_in(*old(cs)),
{
    a.inner.scalar_mul_le(b.inner.iter()).map(|v| RawG2 { inner: v })
}

/// The effect of `Mul` on two target-group variables: the system after the call,
/// and the variable that the call returned.
pub uninterp spec fn gt_var_mul_effect(cs: RawSystem, a: RawGt, b: RawGt) -> (RawSystem, RawGt);

/// `Mul` of two target-group variables.
#[verifier::external_body]
pub(crate) fn gt_var_mul(cs: &mut RawSystem, a: &RawGt, b: &RawGt) -> (r: RawGt)
    ensures
        *final(cs) == gt_var_mul_effect(*old(cs), *a, *b).0,
        r == gt_var_mul_effect(*old(cs), *a, *b).1,
        constraints_in(*final(cs)) >= constraints_in(*old(cs)),
{
    RawGt { inner: &a.inner * &b.inner }
}

/// The effect of `Add` on two foreign-field variables: the system after the call,
/// and the variable that the call returned.
pub uninterp spec fn foreign_var_add_effect(cs: RawSystem, a: RawForeign, b: RawForeign) -> (RawSystem, RawForeign);

/// `Add` of two foreign-field variables.
#[verifier::external_body]
pub(crate) fn foreign_var_add(cs: &mut RawSystem, a: &RawForeign, b: &RawForeign) -> (r: RawForeign)
    ensures
        *final(cs) == foreign_var_add_effect(*old(cs), *a, *b).0,
        r == foreign_var_add_effect(*old(cs), *a, *b).1,
        constraints_in(*final(cs)) >= constraints_in(*old(cs)),
{
    RawForeign { inner: &a.inner + &b.inner }
}

/// The effect of `Mul` on two foreign-field variables: the system after the call,
/// and the variable that the call returned.
pub uninterp spec fn foreign_var_mul_effect(cs: RawSystem, a: RawForeign, b: RawForeign) -> (RawSystem, RawForeign);

/// `Mul` of two foreign-field variables.
#[verifier::external_body]
pub(crate) fn foreign_var_mul(cs: &mut RawSystem, a: &RawForeign, b: &RawForeign) -> (r: RawForeign)
    ensures
        *final(cs) == foreign_var_mul_effect(*old(cs), *a, *b).0,
        r == foreign_var_mul_effect(*old(cs), *a, *b).1,
        constraints_in(*final(cs)) >= constraints_in(*old(cs)),
{
    RawForeign { inner: &a.inner * &b.inner }
}

/// The effect of `EqGadget::enforce_equal` on two target-group variables:
/// the system after the call, and what the call returned.
pub uninterp spec fn gt_var_enforce_equal_effect(cs: RawSystem, a: RawGt, b: RawGt) -> (RawSystem, Result<(), SynthesisError>);

/// `EqGadget::enforce_equal` on two target-group variables.
#[verifier::external_body]
pub(crate) fn gt_var_enforce_equal(cs: &mut RawSystem, a: &RawGt, b: &RawGt) -> (r: Result<(), SynthesisError>)
    ensures
        *final(cs) == gt_var_enforce_equal_effect(*old(cs), *a, *b).0,
        r == gt_var_enforce_equal_effect(*old(cs), *a, *b).1,
        constraints_in(*final(cs)) >= constraints_in(*old(cs)),
{
    a.inner.enforce_equal(&b.inner)
}

/// What `R1CSVar::value` returns for a base-field variable of a system: the
/// value that the system assigns to it.
pub uninterp spec fn base_var_value_of(cs: RawSystem, x: RawBase) -> Result<Fq, SynthesisError>;

/// `R1CSVar::value` of a base-field variable.  The variable reads the
/// system through its own handle; the system is left as it is.
#[verifier::external_body]
pub(crate) fn base_var_value(cs: &RawSystem, x: &RawBase) -> (r: Result<Fq, SynthesisError>)
    ensures
        r == base_var_value_of(*cs, *x),
{
    x.inner.value()
}

/// The sponge that `CryptographicSpongeVar::new` makes in a system from a
/// configuration.
pub uninterp spec fn sponge_made(cs: RawSystem, params: HashParametersView) -> RawSponge;

/// `PoseidonParameters::new` and then `CryptographicSpongeVar::new`.  The
/// first checks the shape of the round constants and stops the program where
/// it is wrong; the sponge later reads the matrix by the indices of its
/// state.  The system is left as it is.
#[verifier::external_body]
pub(crate) fn sponge_new(cs: &RawSystem, params: &HashParameters) -> (r: RawSponge)
    requires
        params@.well_formed(),
    ensures
        r == sponge_made(*cs, params@),
{
    let outside = PoseidonParameters::new(
        params.full_rounds,
        params.partial_rounds,
        params.alpha,
        params.mds.clone(),
        params.ark.clone(),
    );
    RawSponge { inner: PoseidonSpongeVar::new(cs.inner.clone(), &outside) }
}

/// The effect of `CryptographicSpongeVar::absorb` of a list of base-field
/// variables: the system and the sponge after the call, and what the call
/// returned.
pub uninterp spec fn sponge_absorb_effect(cs: RawSystem, sponge: RawSponge, input: RawElements) -> (RawSystem, RawSponge, Result<(), SynthesisError>);

/// `CryptographicSpongeVar::absorb` of a list of base-field variables.
#[verifier::external_body]
pub(crate) fn sponge_absorb(cs: &mut RawSystem, sponge: &mut RawSponge, input: &RawElements) -> (r: Result<(), SynthesisError>)
    ensures
        *final(cs) == sponge_absorb_effect(*old(cs), *old(sponge), *input).0,
        *final(sponge) == sponge_absorb_effect(*old(cs), *old(sponge), *input).1,
        r == sponge_absorb_effect(*old(cs), *old(sponge), *input).2,
        constraints_in(*final(cs)) >= constraints_in(*old(cs)),
{
    sponge.inner.absorb(&input.inner)
}

/// The effect of `CryptographicSpongeVar::absorb` of one base-field
/// variable: the system and the sponge after the call, and what the call
/// returned.
pub uninterp spec fn sponge_absorb_base_effect(cs: RawSystem, sponge: RawSponge, input: RawBase) -> (RawSystem, RawSponge, Result<(), SynthesisError>);

/// `CryptographicSpongeVar::absorb` of one base-field variable.
#[verifier::external_body]
pub(crate) fn sponge_absorb_base(cs: &mut RawSystem, sponge: &mut RawSponge, input: &RawBase) -> (r: Result<(), SynthesisError>)
    ensures
        *final(cs) == sponge_absorb_base_effect(*old(cs), *old(sponge), *input).0,
        *final(sponge) == sponge_absorb_base_effect(*old(cs), *old(sponge), *input).1,
        r == sponge_absorb_base_effect(*old(cs), *old(sponge), *input).2,
        constraints_in(*final(cs)) >= constraints_in(*old(cs)),
{
    sponge.inner.absorb(&input.inner)
}

/// The effect of `CryptographicSpongeVar::squeeze_field_elements` for one
/// element: the system and the sponge after the call, and the element that
/// the call returned.
pub uninterp spec fn sponge_squeeze_effect(cs: RawSystem, sponge: RawSponge) -> (RawSystem, RawSponge, Result<RawBase, SynthesisError>);

/// `CryptographicSpongeVar::squeeze_field_elements` for one element, which
/// returns a list of one.
#[verifier::external_body]
pub(crate) fn sponge_squeeze(cs: &mut RawSystem, sponge: &mut RawSponge) -> (r: Result<RawBase, SynthesisError>)
    ensures
        *final(cs) == sponge_squeeze_effect(*old(cs), *old(sponge)).0,
        *final(sponge) == sponge_squeeze_effect(*old(cs), *old(sponge)).1,
        r == sponge_squeeze_effect(*old(cs), *old(sponge)).2,
        constraints_in(*final(cs)) >= constraints_in(*old(cs)),
{
    sponge.inner.squeeze_field_elements(1).map(|mut v| RawBase { inner: v.remove(0) })
}

/// The effect of `CryptographicSpongeVar::squeeze_nonnative_field_elements`
/// for one element: the system and the sponge after the call, and the
/// element that the call returned.
pub uninterp spec fn sponge_squeeze_foreign_effect(cs: RawSystem, sponge: RawSponge) -> (RawSystem, RawSponge, Result<RawForeign, SynthesisError>);

/// `CryptographicSpongeVar::squeeze_nonnative_field_elements` for one
/// element, which returns a list of one beside the bits it was made from.
#[verifier::external_body]
pub(crate) fn sponge_squeeze_foreign(cs: &mut RawSystem, sponge: &mut RawSponge) -> (r: Result<RawForeign, SynthesisError>)
    ensures
        *final(cs) == sponge_squeeze_foreign_effect(*old(cs), *old(sponge)).0,
        *final(sponge) == sponge_squeeze_foreign_effect(*old(cs), *old(sponge)).1,
        r == sponge_squeeze_foreign_effect(*old(cs), *old(sponge)).2,
        constraints_in(*final(cs)) >= constraints_in(*old(cs)),
{
    sponge.inner.squeeze_nonnative_field_elements::<Fr>(1).map(|mut v| RawForeign { inner: v.0.remove(0) })
}

/// The variables of a list, without their marks.
pub(crate) open spec fn raws_of<R>(wires: Seq<Wire<R>>) -> Seq<R> {
    Seq::new(wires.len(), |i: int| wires[i].raw)
}

/// The effect of `PairingVar::miller_loop` over two lists of prepared
/// points: the system after the call, and what the call returned.
pub uninterp spec fn miller_loop_effect(cs: RawSystem, ps: Seq<RawG1Prepared>, qs: Seq<RawG2Prepared>) -> (RawSystem, Result<RawGt, SynthesisError>);

/// `PairingVar::miller_loop` over the pairs that the two lists form, taken
/// in step.
#[verifier::external_body]
pub(crate) fn miller_loop(cs: &mut RawSystem, ps: &Vec<Wire<RawG1Prepared>>, qs: &Vec<Wire<RawG2Prepared>>) -> (r: Result<RawGt, SynthesisError>)
    ensures
        *final(cs) == miller_loop_effect(*old(cs), raws_of(ps@), raws_of(qs@)).0,
        r == miller_loop_effect(*old(cs), raws_of(ps@), raws_of(qs@)).1,
        constraints_in(*final(cs)) >= constraints_in(*old(cs)),
{
    let ps: Vec<G1PreparedVar> = ps.iter().map(|p| p.raw.inner.clone()).collect();
    let qs: Vec<G2PreparedVar> = qs.iter().map(|q| q.raw.inner.clone()).collect();
    <PairingVar as PairingGadget<Bls12_377>>::miller_loop(&ps, &qs).map(|v| RawGt { inner: v })
}

/// The effect of `PairingVar::pairing` on two prepared points: the system
/// after the call, and what the call returned.
pub uninterp spec fn pairing_effect(cs: RawSystem, p: RawG1Prepared, q: RawG2Prepared) -> (RawSystem, Result<RawGt, SynthesisError>);

/// `PairingVar::pairing`.
#[verifier::external_body]
pub(crate) fn pairing(cs: &mut RawSystem, p: RawG1Prepared, q: RawG2Prepared) -> (r: Result<RawGt, SynthesisError>)
    ensures
        *final(cs) == pairing_effect(*old(cs), p, q).0,
        r == pairing_effect(*old(cs), p, q).1,
        constraints_in(*final(cs)) >= constraints_in(*old(cs)),
{
    <PairingVar as PairingGadget<Bls12_377>>::pairing(p.inner, q.inner).map(|v| RawGt { inner: v })
}

/// A handle to a constraint system over the scalar field of BLS12-377.
#[verifier::external_body]
pub struct RawScalarSystem {
    inner: ConstraintSystemRef<Fr>,
}

/// A variable, in a system over the scalar field of BLS12-377, for a scalar
/// of BLS12-381 held as an element of a foreign field.
#[verifier::external_body]
pub struct RawBls381 {
    inner: NonNativeFieldVar<ark_bls12_381::Fr, Fr>,
}

/// The number of constraints in a system over the scalar field: what
/// `ConstraintSystemRef::num_constraints` returns for it.
pub uninterp spec fn scalar_constraints_in(cs: RawScalarSystem) -> nat;

/// Whether the assignment of a system over the scalar field satisfies its
/// constraints: what `ConstraintSystemRef::is_satisfied` returns for it.
pub uninterp spec fn scalar_satisfaction_of(cs: RawScalarSystem) -> Result<bool, SynthesisError>;

/// `ConstraintSystem::new_ref`: a fresh system over the scalar field, in
/// proving mode.  It holds no constraint, and with none to check it answers
/// that it is satisfied.
#[verifier::external_body]
pub(crate) fn new_scalar_system() -> (made: RawScalarSystem)
    ensures
        scalar_constraints_in(made) == 0,
        scalar_satisfaction_of(made) == satisfied(),
{
    RawScalarSystem { inner: ConstraintSystem::<Fr>::new_ref() }
}

/// `ConstraintSystemRef::is_satisfied` of a system over the scalar field.
#[verifier::external_body]
pub(crate) fn scalar_system_is_satisfied(cs: &RawScalarSystem) -> (r: Result<bool, SynthesisError>)
    ensures
        r == scalar_satisfaction_of(*cs),
{
    cs.inner.is_satisfied()
}

/// `ConstraintSystemRef::num_constraints` of a system over the scalar field.
#[verifier::external_body]
pub(crate) fn scalar_system_num_constraints(cs: &RawScalarSystem) -> (n: usize)
    ensures
        n == scalar_constraints_in(*cs),
{
    cs.inner.num_constraints()
}

/// What allocating a witness for a BLS12-381 scalar does: the system after
/// `AllocVar::new_witness`, and what the call returned.
pub uninterp spec fn alloc_bls381_effect(cs: RawScalarSystem, value: ark_bls12_381::Fr) -> (RawScalarSystem, Result<RawBls381, SynthesisError>);

/// `AllocVar::new_witness` of the variable for a BLS12-381 scalar.
#[verifier::external_body]
pub(crate) fn alloc_bls381(cs: &mut RawScalarSystem, value: &ark_bls12_381::Fr) -> (r: Result<RawBls381, SynthesisError>)
    ensures
        *final(cs) == alloc_bls381_effect(*old(cs), *value).0,
        r == alloc_bls381_effect(*old(cs), *value).1,
        scalar_constraints_in(*final(cs)) >= scalar_constraints_in(*old(cs)),
{
    NonNativeFieldVar::<ark_bls12_381::Fr, Fr>::new_witness(cs.inner.clone(), || Ok(*value))
        .map(|v| RawBls381 { inner: v })
}

/// The effect of `Add` on two variables for BLS12-381 scalars: the
/// system after the call, and the variable that the call returned.
pub uninterp spec fn bls381_var_add_effect(cs: RawScalarSystem, a: RawBls381, b: RawBls381) -> (RawScalarSystem, RawBls381);

/// `Add` of two variables for BLS12-381 scalars.
#[verifier::external_body]
pub(crate) fn bls381_var_add(cs: &mut RawScalarSystem, a: &RawBls381, b: &RawBls381) -> (r: RawBls381)
    ensures
        *final(cs) == bls381_var_add_effect(*old(cs), *a, *b).0,
        r == bls381_var_add_effect(*old(cs), *a, *b).1,
        scalar_constraints_in(*final(cs)) >= scalar_constraints_in(*old(cs)),
{
    RawBls381 { inner: &a.inner + &b.inner }
}

/// The effect of `Mul` on two variables for BLS12-381 scalars: the
/// system after the call, and the variable that the call returned.
pub uninterp spec fn bls381_var_mul_effect(cs: RawScalarSystem, a: RawBls381, b: RawBls381) -> (RawScalarSystem, RawBls381);

/// `Mul` of two variables for BLS12-381 scalars.
#[verifier::external_body]
pub(crate) fn bls381_var_mul(cs: &mut RawScalarSystem, a: &RawBls381, b: &RawBls381) -> (r: RawBls381)
    ensures
        *final(cs) == bls381_var_mul_effect(*old(cs), *a, *b).0,
        r == bls381_var_mul_effect(*old(cs), *a, *b).1,
        scalar_constraints_in(*final(cs)) >= scalar_constraints_in(*old(cs)),
{
    RawBls381 { inner: &a.inner * &b.inner }
}

} // verus!
