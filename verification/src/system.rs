//! A constraint system together with the record of what was asked of it.
//!
//! What a gadget does inside a system is not described here but named: each
//! call has a name for its effect on the system and for what it returns.
//! The state of a system after a run is then those names applied one upon
//! the other, each to the values of the instance and to what the earlier
//! calls returned: the `replay` of a plan.  Beside it `ConstraintSystem`
//! carries, as ghost state, one `Event` for each call made through it and
//! what each call returned.  A variable is known by the position of the call
//! that made it.
//!
//! Of the state itself the engine shows two things, the number of its
//! constraints and whether its assignment satisfies them.  A fresh system
//! holds no constraint and is satisfied, and no call makes the number fall.

use vstd::prelude::*;

use ark_bls12_377::{Fq, Fr};
use ark_relations::r1cs::SynthesisError;

use crate::error::CircuitError;
use crate::gadgets;
use crate::gadgets::{
    RawBase, RawBits, RawBls381, RawElements, RawForeign, RawG1, RawG1Prepared, RawG2,
    RawG2Prepared, RawGt, RawSponge, RawSystem,
};
use crate::group::{G1Point, G2Point, GtElement};
use crate::params::{HashParameters, HashParametersView};

verus! {

/// One call into the gadget libraries.  A number stands for the variable
/// that the call at that position of the record returned.
pub enum Gadget {
    /// A witness for a target-group element.
    AllocGt(GtElement),
    /// A witness for a point of the first source group.
    AllocG1(G1Point),
    /// A witness for a point of the second source group.
    AllocG2(G2Point),
    /// A witness for a base-field element.
    AllocBase(Fq),
    /// A witness for a scalar, held as a foreign field element.
    AllocForeign(Fr),
    /// The product of two target-group variables.
    GtMul(nat, nat),
    /// The constraint that two target-group variables are equal.
    GtEnforceEqual(nat, nat),
    /// The bits of a base-field variable, least significant first.
    BaseBits(nat),
    /// The bits of a foreign-field variable, least significant first.
    ForeignBits(nat),
    /// A target-group variable raised to the number that the bits stand for.
    GtPow(nat, nat),
    /// A fresh sponge with the given configuration.
    SpongeNew(HashParametersView),
    /// The base-field variables that encode a target-group variable.
    GtElements(nat),
    /// The base-field variables that encode a foreign-field variable.
    ForeignElements(nat),
    /// The sponge absorbs a list of base-field variables.
    Absorb(nat, nat),
    /// The sponge absorbs one base-field variable.
    AbsorbBase(nat, nat),
    /// The sponge gives out one base-field variable.
    Squeeze(nat),
    /// The sponge gives out one foreign-field variable.
    SqueezeForeign(nat),
    /// A point of the first source group is prepared for pairing.
    PrepareG1(nat),
    /// A point of the second source group is prepared for pairing.
    PrepareG2(nat),
    /// The joint Miller loop over the prepared points of the first and of
    /// the second source group, paired in step.
    MillerLoop(Seq<nat>, Seq<nat>),
    /// The final exponentiation of a target-group variable.
    FinalExp(nat),
    /// The pairing of two prepared points.
    Pairing(nat, nat),
    /// A point of the first source group multiplied by the number that the
    /// bits stand for.
    G1ScalarMul(nat, nat),
    /// The same in the second source group.
    G2ScalarMul(nat, nat),
    /// The sum of two foreign-field variables.
    ForeignAdd(nat, nat),
    /// The product of two foreign-field variables.
    ForeignMul(nat, nat),
    /// The value assigned to a base-field variable is read.
    ReadBase(nat),
    /// A witness for a scalar of BLS12-381, held as a foreign field element.
    AllocBls381(ark_bls12_381::Fr),
}

impl Gadget {
    /// Whether the call allocates a witness for a value of the instance.
    pub open spec fn is_allocation(self) -> bool {
        self is AllocGt || self is AllocG1 || self is AllocG2 || self is AllocBase
            || self is AllocForeign || self is AllocBls381
    }

    /// The variables that the call works on, each by the position of the
    /// call that returned it.
    pub open spec fn operands(self) -> Set<nat> {
        match self {
            Gadget::AllocGt(_) => Set::empty(),
            Gadget::AllocG1(_) => Set::empty(),
            Gadget::AllocG2(_) => Set::empty(),
            Gadget::AllocBase(_) => Set::empty(),
            Gadget::AllocForeign(_) => Set::empty(),
            Gadget::AllocBls381(_) => Set::empty(),
            Gadget::SpongeNew(_) => Set::empty(),
            Gadget::GtMul(a, b) => set![a, b],
            Gadget::GtEnforceEqual(a, b) => set![a, b],
            Gadget::GtPow(a, b) => set![a, b],
            Gadget::Absorb(a, b) => set![a, b],
            Gadget::AbsorbBase(a, b) => set![a, b],
            Gadget::Pairing(a, b) => set![a, b],
            Gadget::G1ScalarMul(a, b) => set![a, b],
            Gadget::G2ScalarMul(a, b) => set![a, b],
            Gadget::ForeignAdd(a, b) => set![a, b],
            Gadget::ForeignMul(a, b) => set![a, b],
            Gadget::BaseBits(a) => set![a],
            Gadget::ForeignBits(a) => set![a],
            Gadget::GtElements(a) => set![a],
            Gadget::ForeignElements(a) => set![a],
            Gadget::Squeeze(a) => set![a],
            Gadget::SqueezeForeign(a) => set![a],
            Gadget::PrepareG1(a) => set![a],
            Gadget::PrepareG2(a) => set![a],
            Gadget::FinalExp(a) => set![a],
            Gadget::ReadBase(a) => set![a],
            Gadget::MillerLoop(ps, qs) => Set::new(|x: nat| ps.contains(x) || qs.contains(x)),
        }
    }
}

/// What a call returned, as the record of variables keeps it.
pub enum Var {
    Gt(RawGt),
    G1(RawG1),
    G2(RawG2),
    G1Prepared(RawG1Prepared),
    G2Prepared(RawG2Prepared),
    Base(RawBase),
    Foreign(RawForeign),
    Bits(RawBits),
    Elements(RawElements),
    Sponge(RawSponge),
    Bls381(RawBls381),
    /// A value that was read from the system.
    Value(Fq),
    /// The call returned nothing.
    Done,
    /// The call failed with this error.
    Failed(SynthesisError),
}

/// The state that the gadget calls work on: the system itself, and for
/// each call made so far what it returned.  A sponge stands at the position
/// of the call that made it and is kept up to date there.
pub struct Machine {
    pub system: RawSystem,
    pub vars: Seq<Var>,
}

/// What a call that may fail returned, as a variable of the record.
pub open spec fn outcome<T>(r: Result<T, SynthesisError>, wrap: spec_fn(T) -> Var) -> Var {
    match r {
        Ok(x) => wrap(x),
        Err(e) => Var::Failed(e),
    }
}

/// The error that a call returned, as the record of variables keeps it.
pub open spec fn failure_in(v: Var) -> Option<SynthesisError> {
    match v {
        Var::Failed(e) => Some(e),
        _ => None,
    }
}

/// The record of calls and the record of variables tell the same story: there
/// is one variable for each call, and a call failed exactly where its
/// variable is the failure.
pub open spec fn agree(events: Seq<Event>, vars: Seq<Var>) -> bool {
    &&& events.len() == vars.len()
    &&& forall|i: int| 0 <= i < events.len() ==> (#[trigger] events[i]).failure == failure_in(vars[i])
}

/// The prepared points of the first source group at the given positions.
pub open spec fn prepared_left(vars: Seq<Var>, ids: Seq<nat>) -> Seq<RawG1Prepared> {
    Seq::new(ids.len(), |i: int| vars[ids[i] as int]->G1Prepared_0)
}

/// The prepared points of the second source group at the given positions.
pub open spec fn prepared_right(vars: Seq<Var>, ids: Seq<nat>) -> Seq<RawG2Prepared> {
    Seq::new(ids.len(), |i: int| vars[ids[i] as int]->G2Prepared_0)
}

/// The state after one more call: the gadget library's effect on the
/// system, on the operands found at their positions, with what the call
/// returned added to the record of variables.
pub open spec fn step(m: Machine, call: Gadget) -> Machine {
    match call {
        Gadget::AllocGt(value) => {
            let e = gadgets::alloc_gt_effect(m.system, value);
            Machine { system: e.0, vars: m.vars.push(outcome(e.1, |x: RawGt| Var::Gt(x))) }
        },
        Gadget::AllocG1(value) => {
            let e = gadgets::alloc_g1_effect(m.system, value);
            Machine { system: e.0, vars: m.vars.push(outcome(e.1, |x: RawG1| Var::G1(x))) }
        },
        Gadget::AllocG2(value) => {
            let e = gadgets::alloc_g2_effect(m.system, value);
            Machine { system: e.0, vars: m.vars.push(outcome(e.1, |x: RawG2| Var::G2(x))) }
        },
        Gadget::AllocBase(value) => {
            let e = gadgets::alloc_base_effect(m.system, value);
            Machine { system: e.0, vars: m.vars.push(outcome(e.1, |x: RawBase| Var::Base(x))) }
        },
        Gadget::AllocForeign(value) => {
            let e = gadgets::alloc_foreign_effect(m.system, value);
            Machine { system: e.0, vars: m.vars.push(outcome(e.1, |x: RawForeign| Var::Foreign(x))) }
        },
        Gadget::BaseBits(a) => {
            let e = gadgets::base_var_bits_effect(m.system, m.vars[a as int]->Base_0);
            Machine { system: e.0, vars: m.vars.push(outcome(e.1, |x: RawBits| Var::Bits(x))) }
        },
        Gadget::ForeignBits(a) => {
            let e = gadgets::foreign_var_bits_effect(m.system, m.vars[a as int]->Foreign_0);
            Machine { system: e.0, vars: m.vars.push(outcome(e.1, |x: RawBits| Var::Bits(x))) }
        },
        Gadget::GtElements(a) => {
            let e = gadgets::gt_var_elements_effect(m.system, m.vars[a as int]->Gt_0);
            Machine { system: e.0, vars: m.vars.push(outcome(e.1, |x: RawElements| Var::Elements(x))) }
        },
        Gadget::ForeignElements(a) => {
            let e = gadgets::foreign_var_elements_effect(m.system, m.vars[a as int]->Foreign_0);
            Machine { system: e.0, vars: m.vars.push(outcome(e.1, |x: RawElements| Var::Elements(x))) }
        },
        Gadget::PrepareG1(a) => {
            let e = gadgets::prepare_g1_effect(m.system, m.vars[a as int]->G1_0);
            Machine { system: e.0, vars: m.vars.push(outcome(e.1, |x: RawG1Prepared| Var::G1Prepared(x))) }
        },
        Gadget::PrepareG2(a) => {
            let e = gadgets::prepare_g2_effect(m.system, m.vars[a as int]->G2_0);
            Machine { system: e.0, vars: m.vars.push(outcome(e.1, |x: RawG2Prepared| Var::G2Prepared(x))) }
        },
        Gadget::FinalExp(a) => {
            let e = gadgets::final_exponentiation_effect(m.system, m.vars[a as int]->Gt_0);
            Machine { system: e.0, vars: m.vars.push(outcome(e.1, |x: RawGt| Var::Gt(x))) }
        },
        Gadget::GtPow(a, b) => {
            let e = gadgets::gt_var_pow_effect(m.system, m.vars[a as int]->Gt_0, m.vars[b as int]->Bits_0);
            Machine { system: e.0, vars: m.vars.push(outcome(e.1, |x: RawGt| Var::Gt(x))) }
        },
        Gadget::G1ScalarMul(a, b) => {
            let e = gadgets::g1_var_scalar_mul_effect(m.system, m.vars[a as int]->G1_0, m.vars[b as int]->Bits_0);
            Machine { system: e.0, vars: m.vars.push(outcome(e.1, |x: RawG1| Var::G1(x))) }
        },
        Gadget::G2ScalarMul(a, b) => {
            let e = gadgets::g2_var_scalar_mul_effect(m.system, m.vars[a as int]->G2_0, m.vars[b as int]->Bits_0);
            Machine { system: e.0, vars: m.vars.push(outcome(e.1, |x: RawG2| Var::G2(x))) }
        },
        Gadget::GtMul(a, b) => {
            let e = gadgets::gt_var_mul_effect(m.system, m.vars[a as int]->Gt_0, m.vars[b as int]->Gt_0);
            Machine { system: e.0, vars: m.vars.push(Var::Gt(e.1)) }
        },
        Gadget::ForeignAdd(a, b) => {
            let e = gadgets::foreign_var_add_effect(m.system, m.vars[a as int]->Foreign_0, m.vars[b as int]->Foreign_0);
            Machine { system: e.0, vars: m.vars.push(Var::Foreign(e.1)) }
        },
        Gadget::ForeignMul(a, b) => {
            let e = gadgets::foreign_var_mul_effect(m.system, m.vars[a as int]->Foreign_0, m.vars[b as int]->Foreign_0);
            Machine { system: e.0, vars: m.vars.push(Var::Foreign(e.1)) }
        },
        Gadget::GtEnforceEqual(a, b) => {
            let e = gadgets::gt_var_enforce_equal_effect(m.system, m.vars[a as int]->Gt_0, m.vars[b as int]->Gt_0);
            Machine { system: e.0, vars: m.vars.push(outcome(e.1, |x: ()| Var::Done)) }
        },
        Gadget::SpongeNew(params) => Machine {
            system: m.system,
            vars: m.vars.push(Var::Sponge(gadgets::sponge_made(m.system, params))),
        },
        Gadget::Absorb(s, a) => {
            let e = gadgets::sponge_absorb_effect(m.system, m.vars[s as int]->Sponge_0, m.vars[a as int]->Elements_0);
            Machine {
                system: e.0,
                vars: m.vars.update(s as int, Var::Sponge(e.1)).push(outcome(e.2, |x: ()| Var::Done)),
            }
        },
        Gadget::AbsorbBase(s, a) => {
            let e = gadgets::sponge_absorb_base_effect(m.system, m.vars[s as int]->Sponge_0, m.vars[a as int]->Base_0);
            Machine {
                system: e.0,
                vars: m.vars.update(s as int, Var::Sponge(e.1)).push(outcome(e.2, |x: ()| Var::Done)),
            }
        },
        Gadget::Squeeze(s) => {
            let e = gadgets::sponge_squeeze_effect(m.system, m.vars[s as int]->Sponge_0);
            Machine {
                system: e.0,
                vars: m.vars.update(s as int, Var::Sponge(e.1)).push(outcome(e.2, |x: RawBase| Var::Base(x))),
            }
        },
        Gadget::SqueezeForeign(s) => {
            let e = gadgets::sponge_squeeze_foreign_effect(m.system, m.vars[s as int]->Sponge_0);
            Machine {
                system: e.0,
                vars: m.vars.update(s as int, Var::Sponge(e.1)).push(
                    outcome(e.2, |x: RawForeign| Var::Foreign(x)),
                ),
            }
        },
        Gadget::MillerLoop(ps, qs) => {
            let e = gadgets::miller_loop_effect(m.system, prepared_left(m.vars, ps), prepared_right(m.vars, qs));
            Machine { system: e.0, vars: m.vars.push(outcome(e.1, |x: RawGt| Var::Gt(x))) }
        },
        Gadget::Pairing(p, q) => {
            let e = gadgets::pairing_effect(m.system, m.vars[p as int]->G1Prepared_0, m.vars[q as int]->G2Prepared_0);
            Machine { system: e.0, vars: m.vars.push(outcome(e.1, |x: RawGt| Var::Gt(x))) }
        },
        Gadget::ReadBase(a) => Machine {
            system: m.system,
            vars: m.vars.push(
                outcome(gadgets::base_var_value_of(m.system, m.vars[a as int]->Base_0), |x: Fq| Var::Value(x)),
            ),
        },
        Gadget::AllocBls381(_) => m,
    }
}

/// The state after the first `k` calls of a plan.
pub open spec fn replay(m: Machine, plan: Seq<Gadget>, k: int) -> Machine
    decreases k,
{
    if k <= 0 {
        m
    } else {
        step(replay(m, plan, k - 1), plan[k - 1])
    }
}

/// A call and how it ended: with the error that it returned, or without one.
pub struct Event {
    pub call: Gadget,
    pub failure: Option<SynthesisError>,
}

/// The error of the gadget library that a result carries, if it is one.
pub(crate) open spec fn failure_of<T>(r: Result<T, CircuitError>) -> Option<SynthesisError> {
    match r {
        Ok(_) => None,
        Err(e) => e.cause(),
    }
}

/// A variable of the gadget library, with the position of the call that
/// returned it and the mark of the system that it was made in.
pub(crate) struct Wire<R> {
    pub(crate) raw: R,
    pub(crate) id: Ghost<nat>,
    pub(crate) home: Ghost<nat>,
}

impl<R> Wire<R> {
    /// The position, in the record, of the call that returned this variable.
    pub(crate) closed spec fn id(&self) -> nat {
        self.id@
    }

    /// The mark of the system that this variable lives in.
    pub(crate) closed spec fn home(&self) -> nat {
        self.home@
    }
}

/// The positions of the calls that returned the variables of a list.
pub(crate) open spec fn ids_of<R>(wires: Seq<Wire<R>>) -> Seq<nat> {
    Seq::new(wires.len(), |i: int| wires[i].id())
}

/// `after` is `before` with one more event: the call `call`, which returned
/// `r`.  If it failed, the failure is the gadget library's.
pub(crate) open spec fn called<T>(before: Seq<Event>, after: Seq<Event>, call: Gadget, r: Result<T, CircuitError>) -> bool {
    &&& after == before.push(Event { call, failure: failure_of(r) })
    &&& r matches Err(e) ==> e is ConstraintAllocationFailure
}

/// The record of the calls made into the gadget libraries through one
/// handle, and the mark that its variables carry.  A variable is handed
/// only to the system whose mark it bears; nothing is known of a mark
/// outside this file, so no proof can pass a variable from one system to
/// another.  Record and mark exist in proofs only.
pub(crate) struct Ledger {
    log: Ghost<(Seq<Event>, Seq<Var>)>,
    mark: Ghost<nat>,
}

impl View for Ledger {
    type V = Seq<Event>;

    closed spec fn view(&self) -> Seq<Event> {
        self.log@.0
    }
}

impl Ledger {
    /// The mark that the variables made through this handle carry.
    pub(crate) closed spec fn mark(&self) -> nat {
        self.mark@
    }

    /// What the calls made through this handle returned, call by call.
    pub(crate) closed spec fn vars(&self) -> Seq<Var> {
        self.log@.1
    }

    #[verifier::type_invariant]
    pub(crate) closed spec fn inv(self) -> bool {
        agree(self.log@.0, self.log@.1)
    }

    /// The record of calls and the record of variables agree.
    pub(crate) fn aligned(&self)
        ensures
            agree(self@, self.vars()),
    {
        proof {
            use_type_invariant(self);
        }
    }

    /// An empty record.
    pub(crate) fn new() -> (ledger: Ledger)
        ensures
            ledger@ == Seq::<Event>::empty(),
            ledger.vars() == Seq::<Var>::empty(),
    {
        Ledger { log: Ghost((Seq::empty(), Seq::empty())), mark: Ghost(0) }
    }

    /// Adds to the record the call `call` with the outcome `outcome`, and
    /// hands the outcome on in this crate's terms.  `kept` is what the
    /// record of variables keeps of the outcome, and `renewed` the record of
    /// variables as the call left it.
    pub(crate) fn record<R>(
        &mut self,
        Ghost(call): Ghost<Gadget>,
        Ghost(renewed): Ghost<Seq<Var>>,
        Ghost(kept): Ghost<Var>,
        outcome: Result<R, SynthesisError>,
    ) -> (r: Result<Wire<R>, CircuitError>)
        requires
            agree(old(self)@, renewed),
            failure_in(kept) == (match outcome {
                Ok(_) => None::<SynthesisError>,
                Err(e) => Some(e),
            }),
        ensures
            called(old(self)@, final(self)@, call, r),
            final(self).mark() == old(self).mark(),
            final(self).vars() == renewed.push(kept),
            agree(final(self)@, final(self).vars()),
            match outcome {
                Ok(raw) => r matches Ok(w) && w.raw == raw && w.id() == old(self)@.len() && w.home() == old(
                    self,
                ).mark(),
                Err(e) => r == Err::<Wire<R>, CircuitError>(CircuitError::ConstraintAllocationFailure(e)),
            },
    {
        proof {
            use_type_invariant(&*self);
        }
        match outcome {
            Ok(raw) => Ok(self.record_sure(Ghost(call), Ghost(renewed), Ghost(kept), raw)),
            Err(e) => {
                proof {
                    self.log@ = (self.log@.0.push(Event { call, failure: Some(e) }), renewed.push(kept));
                }
                Err(CircuitError::ConstraintAllocationFailure(e))
            },
        }
    }

    /// Adds to the record the call `call`, which did not fail and returned
    /// `raw`.
    pub(crate) fn record_sure<R>(
        &mut self,
        Ghost(call): Ghost<Gadget>,
        Ghost(renewed): Ghost<Seq<Var>>,
        Ghost(kept): Ghost<Var>,
        raw: R,
    ) -> (w: Wire<R>)
        requires
            agree(old(self)@, renewed),
            failure_in(kept) is None,
        ensures
            final(self)@ == old(self)@.push(Event { call, failure: None }),
            final(self).mark() == old(self).mark(),
            final(self).vars() == renewed.push(kept),
            agree(final(self)@, final(self).vars()),
            w.raw == raw,
            w.id() == old(self)@.len(),
            w.home() == old(self).mark(),
    {
        proof {
            use_type_invariant(&*self);
        }
        let ghost at = self.log@.0.len();
        proof {
            self.log@ = (self.log@.0.push(Event { call, failure: None }), renewed.push(kept));
        }
        Wire { raw, id: Ghost(at), home: Ghost(self.mark@) }
    }
}

/// An answer of the constraint engine in this crate's terms: the answer
/// itself, or the engine's error as a `ConstraintAllocationFailure`.
pub open spec fn in_circuit_terms<T>(answer: Result<T, SynthesisError>) -> Result<T, CircuitError> {
    match answer {
        Ok(x) => Ok(x),
        Err(e) => Err(CircuitError::ConstraintAllocationFailure(e)),
    }
}

/// Puts an answer of the constraint engine in this crate's terms.
pub fn engine_answer<T>(answer: Result<T, SynthesisError>) -> (r: Result<T, CircuitError>)
    ensures
        r == in_circuit_terms(answer),
{
    match answer {
        Ok(x) => Ok(x),
        Err(e) => Err(CircuitError::ConstraintAllocationFailure(e)),
    }
}

/// A constraint system over the base field of BLS12-377.
pub struct ConstraintSystem {
    raw: RawSystem,
    ledger: Ledger,
}

impl ConstraintSystem {
    /// The calls made through this handle, oldest first.
    pub closed spec fn trace(&self) -> Seq<Event> {
        self.ledger@
    }

    /// The mark that the variables of this system carry.
    pub(crate) closed spec fn mark(&self) -> nat {
        self.ledger.mark()
    }

    /// The state that the gadget calls work on: the system itself, and what
    /// the calls made through this handle returned.
    pub closed spec fn machine(&self) -> Machine {
        Machine { system: self.raw, vars: self.ledger.vars() }
    }

    /// Whether the call at position `id` returned `v`.
    pub open spec fn holds(&self, id: nat, v: Var) -> bool {
        id < self.machine().vars.len() && self.machine().vars[id as int] == v
    }

    /// The number of constraints that the system holds.
    pub closed spec fn constraint_count(&self) -> nat {
        gadgets::constraints_in(self.raw)
    }

    /// The record of calls and the record of variables agree.
    pub fn aligned(&self)
        ensures
            agree(self.trace(), self.machine().vars),
    {
        self.ledger.aligned();
    }

    /// The answer of the system to the question whether its assignment
    /// satisfies its constraints: yes, no, or the engine's error where it
    /// cannot tell.
    pub closed spec fn satisfaction(&self) -> Result<bool, CircuitError> {
        in_circuit_terms(gadgets::satisfaction_of(self.raw))
    }

    /// A fresh constraint system: nothing has been asked of it, it holds no
    /// constraint, and it is satisfied.
    pub fn new() -> (cs: ConstraintSystem)
        ensures
            cs.trace() == Seq::<Event>::empty(),
            cs.machine().vars == Seq::<Var>::empty(),
            cs.constraint_count() == 0,
            cs.satisfaction() == Ok::<bool, CircuitError>(true),
    {
        ConstraintSystem { raw: gadgets::new_system(), ledger: Ledger::new() }
    }

    /// Asks the system whether its assignment satisfies its constraints.
    /// The system is left as it is.
    pub fn is_satisfied(&self) -> (r: Result<bool, CircuitError>)
        ensures
            r == self.satisfaction(),
    {
        engine_answer(gadgets::system_is_satisfied(&self.raw))
    }

    /// The number of constraints in the system.  The system is left as it
    /// is.
    pub fn num_constraints(&self) -> (n: usize)
        ensures
            n == self.constraint_count(),
    {
        gadgets::system_num_constraints(&self.raw)
    }
}

impl ConstraintSystem {
    /// Allocates a witness for a target-group element.
    pub(crate) fn alloc_gt(&mut self, value: &GtElement) -> (r: Result<Wire<RawGt>, CircuitError>)
        ensures
            final(self).mark() == old(self).mark(),
            final(self).constraint_count() >= old(self).constraint_count(),
            final(self).machine() == step(old(self).machine(), Gadget::AllocGt(*value)),
            agree(final(self).trace(), final(self).machine().vars),
            called(old(self).trace(), final(self).trace(), Gadget::AllocGt(*value), r),
            r matches Ok(w) ==> w.id() == old(self).trace().len() && w.home() == old(self).mark()
                && final(self).holds(w.id(), Var::Gt(w.raw)),
    {
        self.ledger.aligned();
        let ghost vars = self.ledger.vars();
        let outcome = gadgets::alloc_gt(&mut self.raw, value);
        let ghost kept = crate::system::outcome(outcome, |x: RawGt| Var::Gt(x));
        self.ledger.record(Ghost(Gadget::AllocGt(*value)), Ghost(vars), Ghost(kept), outcome)
    }

    /// Allocates a witness for a point of the first source group.
    pub(crate) fn alloc_g1(&mut self, value: &G1Point) -> (r: Result<Wire<RawG1>, CircuitError>)
        ensures
            final(self).mark() == old(self).mark(),
            final(self).constraint_count() >= old(self).constraint_count(),
            final(self).machine() == step(old(self).machine(), Gadget::AllocG1(*value)),
            agree(final(self).trace(), final(self).machine().vars),
            called(old(self).trace(), final(self).trace(), Gadget::AllocG1(*value), r),
            r matches Ok(w) ==> w.id() == old(self).trace().len() && w.home() == old(self).mark()
                && final(self).holds(w.id(), Var::G1(w.raw)),
    {
        self.ledger.aligned();
        let ghost vars = self.ledger.vars();
        let outcome = gadgets::alloc_g1(&mut self.raw, value);
        let ghost kept = crate::system::outcome(outcome, |x: RawG1| Var::G1(x));
        self.ledger.record(Ghost(Gadget::AllocG1(*value)), Ghost(vars), Ghost(kept), outcome)
    }

    /// Allocates a witness for a point of the second source group.
    pub(crate) fn alloc_g2(&mut self, value: &G2Point) -> (r: Result<Wire<RawG2>, CircuitError>)
        ensures
            final(self).mark() == old(self).mark(),
            final(self).constraint_count() >= old(self).constraint_count(),
            final(self).machine() == step(old(self).machine(), Gadget::AllocG2(*value)),
            agree(final(self).trace(), final(self).machine().vars),
            called(old(self).trace(), final(self).trace(), Gadget::AllocG2(*value), r),
            r matches Ok(w) ==> w.id() == old(self).trace().len() && w.home() == old(self).mark()
                && final(self).holds(w.id(), Var::G2(w.raw)),
    {
        self.ledger.aligned();
        let ghost vars = self.ledger.vars();
        let outcome = gadgets::alloc_g2(&mut self.raw, value);
        let ghost kept = crate::system::outcome(outcome, |x: RawG2| Var::G2(x));
        self.ledger.record(Ghost(Gadget::AllocG2(*value)), Ghost(vars), Ghost(kept), outcome)
    }

    /// Allocates a witness for a base-field element.
    pub(crate) fn alloc_base(&mut self, value: &Fq) -> (r: Result<Wire<RawBase>, CircuitError>)
        ensures
            final(self).mark() == old(self).mark(),
            final(self).constraint_count() >= old(self).constraint_count(),
            final(self).machine() == step(old(self).machine(), Gadget::AllocBase(*value)),
            agree(final(self).trace(), final(self).machine().vars),
            called(old(self).trace(), final(self).trace(), Gadget::AllocBase(*value), r),
            r matches Ok(w) ==> w.id() == old(self).trace().len() && w.home() == old(self).mark()
                && final(self).holds(w.id(), Var::Base(w.raw)),
    {
        self.ledger.aligned();
        let ghost vars = self.ledger.vars();
        let outcome = gadgets::alloc_base(&mut self.raw, value);
        let ghost kept = crate::system::outcome(outcome, |x: RawBase| Var::Base(x));
        self.ledger.record(Ghost(Gadget::AllocBase(*value)), Ghost(vars), Ghost(kept), outcome)
    }

    /// Allocates a witness for a scalar, held as a foreign field element.
    pub(crate) fn alloc_foreign(&mut self, value: &Fr) -> (r: Result<Wire<RawForeign>, CircuitError>)
        ensures
            final(self).mark() == old(self).mark(),
            final(self).constraint_count() >= old(self).constraint_count(),
            final(self).machine() == step(old(self).machine(), Gadget::AllocForeign(*value)),
            agree(final(self).trace(), final(self).machine().vars),
            called(old(self).trace(), final(self).trace(), Gadget::AllocForeign(*value), r),
            r matches Ok(w) ==> w.id() == old(self).trace().len() && w.home() == old(self).mark()
                && final(self).holds(w.id(), Var::Foreign(w.raw)),
    {
        self.ledger.aligned();
        let ghost vars = self.ledger.vars();
        let outcome = gadgets::alloc_foreign(&mut self.raw, value);
        let ghost kept = crate::system::outcome(outcome, |x: RawForeign| Var::Foreign(x));
        self.ledger.record(Ghost(Gadget::AllocForeign(*value)), Ghost(vars), Ghost(kept), outcome)
    }

    /// Decomposes a base-field variable into bits, least significant first.
    pub(crate) fn base_bits(&mut self, x: &Wire<RawBase>) -> (r: Result<Wire<RawBits>, CircuitError>)
        requires
            x.home() == old(self).mark(),
            old(self).holds(x.id(), Var::Base(x.raw)),
        ensures
            final(self).mark() == old(self).mark(),
            final(self).constraint_count() >= old(self).constraint_count(),
            final(self).machine() == step(old(self).machine(), Gadget::BaseBits(x.id())),
            agree(final(self).trace(), final(self).machine().vars),
            called(old(self).trace(), final(self).trace(), Gadget::BaseBits(x.id()), r),
            r matches Ok(w) ==> w.id() == old(self).trace().len() && w.home() == old(self).mark()
                && final(self).holds(w.id(), Var::Bits(w.raw)),
    {
        self.ledger.aligned();
        let ghost vars = self.ledger.vars();
        let outcome = gadgets::base_var_bits(&mut self.raw, &x.raw);
        let ghost kept = crate::system::outcome(outcome, |x: RawBits| Var::Bits(x));
        self.ledger.record(Ghost(Gadget::BaseBits(x.id())), Ghost(vars), Ghost(kept), outcome)
    }

    /// Decomposes a foreign-field variable into bits, least significant first.
    pub(crate) fn foreign_bits(&mut self, x: &Wire<RawForeign>) -> (r: Result<Wire<RawBits>, CircuitError>)
        requires
            x.home() == old(self).mark(),
            old(self).holds(x.id(), Var::Foreign(x.raw)),
        ensures
            final(self).mark() == old(self).mark(),
            final(self).constraint_count() >= old(self).constraint_count(),
            final(self).machine() == step(old(self).machine(), Gadget::ForeignBits(x.id())),
            agree(final(self).trace(), final(self).machine().vars),
            called(old(self).trace(), final(self).trace(), Gadget::ForeignBits(x.id()), r),
            r matches Ok(w) ==> w.id() == old(self).trace().len() && w.home() == old(self).mark()
                && final(self).holds(w.id(), Var::Bits(w.raw)),
    {
        self.ledger.aligned();
        let ghost vars = self.ledger.vars();
        let outcome = gadgets::foreign_var_bits(&mut self.raw, &x.raw);
        let ghost kept = crate::system::outcome(outcome, |x: RawBits| Var::Bits(x));
        self.ledger.record(Ghost(Gadget::ForeignBits(x.id())), Ghost(vars), Ghost(kept), outcome)
    }

    /// Encodes a target-group variable as base-field variables.
    pub(crate) fn gt_elements(&mut self, x: &Wire<RawGt>) -> (r: Result<Wire<RawElements>, CircuitError>)
        requires
            x.home() == old(self).mark(),
            old(self).holds(x.id(), Var::Gt(x.raw)),
        ensures
            final(self).mark() == old(self).mark(),
            final(self).constraint_count() >= old(self).constraint_count(),
            final(self).machine() == step(old(self).machine(), Gadget::GtElements(x.id())),
            agree(final(self).trace(), final(self).machine().vars),
            called(old(self).trace(), final(self).trace(), Gadget::GtElements(x.id()), r),
            r matches Ok(w) ==> w.id() == old(self).trace().len() && w.home() == old(self).mark()
                && final(self).holds(w.id(), Var::Elements(w.raw)),
    {
        self.ledger.aligned();
        let ghost vars = self.ledger.vars();
        let outcome = gadgets::gt_var_elements(&mut self.raw, &x.raw);
        let ghost kept = crate::system::outcome(outcome, |x: RawElements| Var::Elements(x));
        self.ledger.record(Ghost(Gadget::GtElements(x.id())), Ghost(vars), Ghost(kept), outcome)
    }

    /// Encodes a foreign-field variable as base-field variables.
    pub(crate) fn foreign_elements(&mut self, x: &Wire<RawForeign>) -> (r: Result<Wire<RawElements>, CircuitError>)
        requires
            x.home() == old(self).mark(),
            old(self).holds(x.id(), Var::Foreign(x.raw)),
        ensures
            final(self).mark() == old(self).mark(),
            final(self).constraint_count() >= old(self).constraint_count(),
            final(self).machine() == step(old(self).machine(), Gadget::ForeignElements(x.id())),
            agree(final(self).trace(), final(self).machine().vars),
            called(old(self).trace(), final(self).trace(), Gadget::ForeignElements(x.id()), r),
            r matches Ok(w) ==> w.id() == old(self).trace().len() && w.home() == old(self).mark()
                && final(self).holds(w.id(), Var::Elements(w.raw)),
    {
        self.ledger.aligned();
        let ghost vars = self.ledger.vars();
        let outcome = gadgets::foreign_var_elements(&mut self.raw, &x.raw);
        let ghost kept = crate::system::outcome(outcome, |x: RawElements| Var::Elements(x));
        self.ledger.record(Ghost(Gadget::ForeignElements(x.id())), Ghost(vars), Ghost(kept), outcome)
    }

    /// Prepares a point of the first source group for pairing.
    pub(crate) fn prepare_g1(&mut self, x: &Wire<RawG1>) -> (r: Result<Wire<RawG1Prepared>, CircuitError>)
        requires
            x.home() == old(self).mark(),
            old(self).holds(x.id(), Var::G1(x.raw)),
        ensures
            final(self).mark() == old(self).mark(),
            final(self).constraint_count() >= old(self).constraint_count(),
            final(self).machine() == step(old(self).machine(), Gadget::PrepareG1(x.id())),
            agree(final(self).trace(), final(self).machine().vars),
            called(old(self).trace(), final(self).trace(), Gadget::PrepareG1(x.id()), r),
            r matches Ok(w) ==> w.id() == old(self).trace().len() && w.home() == old(self).mark()
                && final(self).holds(w.id(), Var::G1Prepared(w.raw)),
    {
        self.ledger.aligned();
        let ghost vars = self.ledger.vars();
        let outcome = gadgets::prepare_g1(&mut self.raw, &x.raw);
        let ghost kept = crate::system::outcome(outcome, |x: RawG1Prepared| Var::G1Prepared(x));
        self.ledger.record(Ghost(Gadget::PrepareG1(x.id())), Ghost(vars), Ghost(kept), outcome)
    }

    /// Prepares a point of the second source group for pairing.
    pub(crate) fn prepare_g2(&mut self, x: &Wire<RawG2>) -> (r: Result<Wire<RawG2Prepared>, CircuitError>)
        requires
            x.home() == old(self).mark(),
            old(self).holds(x.id(), Var::G2(x.raw)),
        ensures
            final(self).mark() == old(self).mark(),
            final(self).constraint_count() >= old(self).constraint_count(),
            final(self).machine() == step(old(self).machine(), Gadget::PrepareG2(x.id())),
            agree(final(self).trace(), final(self).machine().vars),
            called(old(self).trace(), final(self).trace(), Gadget::PrepareG2(x.id()), r),
            r matches Ok(w) ==> w.id() == old(self).trace().len() && w.home() == old(self).mark()
                && final(self).holds(w.id(), Var::G2Prepared(w.raw)),
    {
        self.ledger.aligned();
        let ghost vars = self.ledger.vars();
        let outcome = gadgets::prepare_g2(&mut self.raw, &x.raw);
        let ghost kept = crate::system::outcome(outcome, |x: RawG2Prepared| Var::G2Prepared(x));
        self.ledger.record(Ghost(Gadget::PrepareG2(x.id())), Ghost(vars), Ghost(kept), outcome)
    }

    /// Applies the final exponentiation to a target-group variable.
    pub(crate) fn final_exponentiation(&mut self, x: &Wire<RawGt>) -> (r: Result<Wire<RawGt>, CircuitError>)
        requires
            x.home() == old(self).mark(),
            old(self).holds(x.id(), Var::Gt(x.raw)),
        ensures
            final(self).mark() == old(self).mark(),
            final(self).constraint_count() >= old(self).constraint_count(),
            final(self).machine() == step(old(self).machine(), Gadget::FinalExp(x.id())),
            agree(final(self).trace(), final(self).machine().vars),
            called(old(self).trace(), final(self).trace(), Gadget::FinalExp(x.id()), r),
            r matches Ok(w) ==> w.id() == old(self).trace().len() && w.home() == old(self).mark()
                && final(self).holds(w.id(), Var::Gt(w.raw)),
    {
        self.ledger.aligned();
        let ghost vars = self.ledger.vars();
        let outcome = gadgets::final_exponentiation(&mut self.raw, &x.raw);
        let ghost kept = crate::system::outcome(outcome, |x: RawGt| Var::Gt(x));
        self.ledger.record(Ghost(Gadget::FinalExp(x.id())), Ghost(vars), Ghost(kept), outcome)
    }

    /// Raises a target-group variable to the number that the bits stand for.
    pub(crate) fn gt_pow(&mut self, a: &Wire<RawGt>, b: &Wire<RawBits>) -> (r: Result<Wire<RawGt>, CircuitError>)
        requires
            a.home() == old(self).mark(),
            b.home() == old(self).mark(),
            old(self).holds(a.id(), Var::Gt(a.raw)),
            old(self).holds(b.id(), Var::Bits(b.raw)),
        ensures
            final(self).mark() == old(self).mark(),
            final(self).constraint_count() >= old(self).constraint_count(),
            final(self).machine() == step(old(self).machine(), Gadget::GtPow(a.id(), b.id())),
            agree(final(self).trace(), final(self).machine().vars),
            called(old(self).trace(), final(self).trace(), Gadget::GtPow(a.id(), b.id()), r),
            r matches Ok(w) ==> w.id() == old(self).trace().len() && w.home() == old(self).mark()
                && final(self).holds(w.id(), Var::Gt(w.raw)),
    {
        self.ledger.aligned();
        let ghost vars = self.ledger.vars();
        let outcome = gadgets::gt_var_pow(&mut self.raw, &a.raw, &b.raw);
        let ghost kept = crate::system::outcome(outcome, |x: RawGt| Var::Gt(x));
        self.ledger.record(Ghost(Gadget::GtPow(a.id(), b.id())), Ghost(vars), Ghost(kept), outcome)
    }

    /// Multiplies a point of the first source group by the number that the bits stand for.
    pub(crate) fn g1_scalar_mul(&mut self, a: &Wire<RawG1>, b: &Wire<RawBits>) -> (r: Result<Wire<RawG1>, CircuitError>)
        requires
            a.home() == old(self).mark(),
            b.home() == old(self).mark(),
            old(self).holds(a.id(), Var::G1(a.raw)),
            old(self).holds(b.id(), Var::Bits(b.raw)),
        ensures
            final(self).mark() == old(self).mark(),
            final(self).constraint_count() >= old(self).constraint_count(),
            final(self).machine() == step(old(self).machine(), Gadget::G1ScalarMul(a.id(), b.id())),
            agree(final(self).trace(), final(self).machine().vars),
            called(old(self).trace(), final(self).trace(), Gadget::G1ScalarMul(a.id(), b.id()), r),
            r matches Ok(w) ==> w.id() == old(self).trace().len() && w.home() == old(self).mark()
                && final(self).holds(w.id(), Var::G1(w.raw)),
    {
        self.ledger.aligned();
        let ghost vars = self.ledger.vars();
        let outcome = gadgets::g1_var_scalar_mul(&mut self.raw, &a.raw, &b.raw);
        let ghost kept = crate::system::outcome(outcome, |x: RawG1| Var::G1(x));
        self.ledger.record(Ghost(Gadget::G1ScalarMul(a.id(), b.id())), Ghost(vars), Ghost(kept), outcome)
    }

    /// Multiplies a point of the second source group by the number that the bits stand for.
    pub(crate) fn g2_scalar_mul(&mut self, a: &Wire<RawG2>, b: &Wire<RawBits>) -> (r: Result<Wire<RawG2>, CircuitError>)
        requires
            a.home() == old(self).mark(),
            b.home() == old(self).mark(),
            old(self).holds(a.id(), Var::G2(a.raw)),
            old(self).holds(b.id(), Var::Bits(b.raw)),
        ensures
            final(self).mark() == old(self).mark(),
            final(self).constraint_count() >= old(self).constraint_count(),
            final(self).machine() == step(old(self).machine(), Gadget::G2ScalarMul(a.id(), b.id())),
            agree(final(self).trace(), final(self).machine().vars),
            called(old(self).trace(), final(self).trace(), Gadget::G2ScalarMul(a.id(), b.id()), r),
            r matches Ok(w) ==> w.id() == old(self).trace().len() && w.home() == old(self).mark()
                && final(self).holds(w.id(), Var::G2(w.raw)),
    {
        self.ledger.aligned();
        let ghost vars = self.ledger.vars();
        let outcome = gadgets::g2_var_scalar_mul(&mut self.raw, &a.raw, &b.raw);
        let ghost kept = crate::system::outcome(outcome, |x: RawG2| Var::G2(x));
        self.ledger.record(Ghost(Gadget::G2ScalarMul(a.id(), b.id())), Ghost(vars), Ghost(kept), outcome)
    }

    /// Multiplies two target-group variables.
    pub(crate) fn gt_mul(&mut self, a: &Wire<RawGt>, b: &Wire<RawGt>) -> (r: Wire<RawGt>)
        requires
            a.home() == old(self).mark(),
            b.home() == old(self).mark(),
            old(self).holds(a.id(), Var::Gt(a.raw)),
            old(self).holds(b.id(), Var::Gt(b.raw)),
        ensures
            final(self).mark() == old(self).mark(),
            final(self).constraint_count() >= old(self).constraint_count(),
            final(self).machine() == step(old(self).machine(), Gadget::GtMul(a.id(), b.id())),
            agree(final(self).trace(), final(self).machine().vars),
            final(self).trace() == old(self).trace().push(Event { call: Gadget::GtMul(a.id(), b.id()), failure: None }),
            r.id() == old(self).trace().len(),
            r.home() == old(self).mark(),
            final(self).holds(r.id(), Var::Gt(r.raw)),
    {
        self.ledger.aligned();
        let ghost vars = self.ledger.vars();
        let made = gadgets::gt_var_mul(&mut self.raw, &a.raw, &b.raw);
        self.ledger.record_sure(Ghost(Gadget::GtMul(a.id(), b.id())), Ghost(vars), Ghost(Var::Gt(made)), made)
    }

    /// Adds two foreign-field variables.
    pub(crate) fn foreign_add(&mut self, a: &Wire<RawForeign>, b: &Wire<RawForeign>) -> (r: Wire<RawForeign>)
        requires
            a.home() == old(self).mark(),
            b.home() == old(self).mark(),
            old(self).holds(a.id(), Var::Foreign(a.raw)),
            old(self).holds(b.id(), Var::Foreign(b.raw)),
        ensures
            final(self).mark() == old(self).mark(),
            final(self).constraint_count() >= old(self).constraint_count(),
            final(self).machine() == step(old(self).machine(), Gadget::ForeignAdd(a.id(), b.id())),
            agree(final(self).trace(), final(self).machine().vars),
            final(self).trace() == old(self).trace().push(Event { call: Gadget::ForeignAdd(a.id(), b.id()), failure: None }),
            r.id() == old(self).trace().len(),
            r.home() == old(self).mark(),
            final(self).holds(r.id(), Var::Foreign(r.raw)),
    {
        self.ledger.aligned();
        let ghost vars = self.ledger.vars();
        let made = gadgets::foreign_var_add(&mut self.raw, &a.raw, &b.raw);
        self.ledger.record_sure(Ghost(Gadget::ForeignAdd(a.id(), b.id())), Ghost(vars), Ghost(Var::Foreign(made)), made)
    }

    /// Multiplies two foreign-field variables.
    pub(crate) fn foreign_mul(&mut self, a: &Wire<RawForeign>, b: &Wire<RawForeign>) -> (r: Wire<RawForeign>)
        requires
            a.home() == old(self).mark(),
            b.home() == old(self).mark(),
            old(self).holds(a.id(), Var::Foreign(a.raw)),
            old(self).holds(b.id(), Var::Foreign(b.raw)),
        ensures
            final(self).mark() == old(self).mark(),
            final(self).constraint_count() >= old(self).constraint_count(),
            final(self).machine() == step(old(self).machine(), Gadget::ForeignMul(a.id(), b.id())),
            agree(final(self).trace(), final(self).machine().vars),
            final(self).trace() == old(self).trace().push(Event { call: Gadget::ForeignMul(a.id(), b.id()), failure: None }),
            r.id() == old(self).trace().len(),
            r.home() == old(self).mark(),
            final(self).holds(r.id(), Var::Foreign(r.raw)),
    {
        self.ledger.aligned();
        let ghost vars = self.ledger.vars();
        let made = gadgets::foreign_var_mul(&mut self.raw, &a.raw, &b.raw);
        self.ledger.record_sure(Ghost(Gadget::ForeignMul(a.id(), b.id())), Ghost(vars), Ghost(Var::Foreign(made)), made)
    }

    /// Has the sponge absorb a list of base-field variables.
    pub(crate) fn absorb(&mut self, sponge: &mut Wire<RawSponge>, input: &Wire<RawElements>) -> (r: Result<(), CircuitError>)
        requires
            old(sponge).home() == old(self).mark(),
            old(self).holds(old(sponge).id(), Var::Sponge(old(sponge).raw)),
            input.home() == old(self).mark(),
            old(self).holds(input.id(), Var::Elements(input.raw)),
        ensures
            final(self).mark() == old(self).mark(),
            final(self).constraint_count() >= old(self).constraint_count(),
            final(self).machine() == step(old(self).machine(), Gadget::Absorb(old(sponge).id(), input.id())),
            agree(final(self).trace(), final(self).machine().vars),
            called(old(self).trace(), final(self).trace(), Gadget::Absorb(old(sponge).id(), input.id()), r),
            final(sponge).id() == old(sponge).id(),
            final(sponge).home() == old(sponge).home(),
            final(self).holds(final(sponge).id(), Var::Sponge(final(sponge).raw)),
    {
        self.ledger.aligned();
        let ghost vars = self.ledger.vars();
        let outcome = gadgets::sponge_absorb(&mut self.raw, &mut sponge.raw, &input.raw);
        let ghost renewed = vars.update(sponge.id() as int, Var::Sponge(sponge.raw));
        let ghost kept = crate::system::outcome(outcome, |x: ()| Var::Done);
        match self.ledger.record(Ghost(Gadget::Absorb(sponge.id(), input.id())), Ghost(renewed), Ghost(kept), outcome) {
            Ok(_) => Ok(()),
            Err(e) => Err(e),
        }
    }

    /// Has the sponge absorb one base-field variable.
    pub(crate) fn absorb_base(&mut self, sponge: &mut Wire<RawSponge>, input: &Wire<RawBase>) -> (r: Result<(), CircuitError>)
        requires
            old(sponge).home() == old(self).mark(),
            old(self).holds(old(sponge).id(), Var::Sponge(old(sponge).raw)),
            input.home() == old(self).mark(),
            old(self).holds(input.id(), Var::Base(input.raw)),
        ensures
            final(self).mark() == old(self).mark(),
            final(self).constraint_count() >= old(self).constraint_count(),
            final(self).machine() == step(old(self).machine(), Gadget::AbsorbBase(old(sponge).id(), input.id())),
            agree(final(self).trace(), final(self).machine().vars),
            called(old(self).trace(), final(self).trace(), Gadget::AbsorbBase(old(sponge).id(), input.id()), r),
            final(sponge).id() == old(sponge).id(),
            final(sponge).home() == old(sponge).home(),
            final(self).holds(final(sponge).id(), Var::Sponge(final(sponge).raw)),
    {
        self.ledger.aligned();
        let ghost vars = self.ledger.vars();
        let outcome = gadgets::sponge_absorb_base(&mut self.raw, &mut sponge.raw, &input.raw);
        let ghost renewed = vars.update(sponge.id() as int, Var::Sponge(sponge.raw));
        let ghost kept = crate::system::outcome(outcome, |x: ()| Var::Done);
        match self.ledger.record(Ghost(Gadget::AbsorbBase(sponge.id(), input.id())), Ghost(renewed), Ghost(kept), outcome) {
            Ok(_) => Ok(()),
            Err(e) => Err(e),
        }
    }

    /// Has the sponge give out one base-field variable.
    pub(crate) fn squeeze(&mut self, sponge: &mut Wire<RawSponge>) -> (r: Result<Wire<RawBase>, CircuitError>)
        requires
            old(sponge).home() == old(self).mark(),
            old(self).holds(old(sponge).id(), Var::Sponge(old(sponge).raw)),
        ensures
            final(self).mark() == old(self).mark(),
            final(self).constraint_count() >= old(self).constraint_count(),
            final(self).machine() == step(old(self).machine(), Gadget::Squeeze(old(sponge).id())),
            agree(final(self).trace(), final(self).machine().vars),
            called(old(self).trace(), final(self).trace(), Gadget::Squeeze(old(sponge).id()), r),
            final(sponge).id() == old(sponge).id(),
            final(sponge).home() == old(sponge).home(),
            final(self).holds(final(sponge).id(), Var::Sponge(final(sponge).raw)),
            r matches Ok(w) ==> w.id() == old(self).trace().len() && w.home() == old(self).mark()
                && final(self).holds(w.id(), Var::Base(w.raw)),
    {
        self.ledger.aligned();
        let ghost vars = self.ledger.vars();
        let outcome = gadgets::sponge_squeeze(&mut self.raw, &mut sponge.raw);
        let ghost renewed = vars.update(sponge.id() as int, Var::Sponge(sponge.raw));
        let ghost kept = crate::system::outcome(outcome, |x: RawBase| Var::Base(x));
        self.ledger.record(Ghost(Gadget::Squeeze(sponge.id())), Ghost(renewed), Ghost(kept), outcome)
    }

    /// Has the sponge give out one foreign-field variable.
    pub(crate) fn squeeze_foreign(&mut self, sponge: &mut Wire<RawSponge>) -> (r: Result<Wire<RawForeign>, CircuitError>)
        requires
            old(sponge).home() == old(self).mark(),
            old(self).holds(old(sponge).id(), Var::Sponge(old(sponge).raw)),
        ensures
            final(self).mark() == old(self).mark(),
            final(self).constraint_count() >= old(self).constraint_count(),
            final(self).machine() == step(old(self).machine(), Gadget::SqueezeForeign(old(sponge).id())),
            agree(final(self).trace(), final(self).machine().vars),
            called(old(self).trace(), final(self).trace(), Gadget::SqueezeForeign(old(sponge).id()), r),
            final(sponge).id() == old(sponge).id(),
            final(sponge).home() == old(sponge).home(),
            final(self).holds(final(sponge).id(), Var::Sponge(final(sponge).raw)),
            r matches Ok(w) ==> w.id() == old(self).trace().len() && w.home() == old(self).mark()
                && final(self).holds(w.id(), Var::Foreign(w.raw)),
    {
        self.ledger.aligned();
        let ghost vars = self.ledger.vars();
        let outcome = gadgets::sponge_squeeze_foreign(&mut self.raw, &mut sponge.raw);
        let ghost renewed = vars.update(sponge.id() as int, Var::Sponge(sponge.raw));
        let ghost kept = crate::system::outcome(outcome, |x: RawForeign| Var::Foreign(x));
        self.ledger.record(Ghost(Gadget::SqueezeForeign(sponge.id())), Ghost(renewed), Ghost(kept), outcome)
    }

    /// Reads the value assigned to a base-field variable.
    pub(crate) fn read_base(&mut self, x: &Wire<RawBase>) -> (r: Result<Fq, CircuitError>)
        requires
            x.home() == old(self).mark(),
            old(self).holds(x.id(), Var::Base(x.raw)),
        ensures
            final(self).mark() == old(self).mark(),
            final(self).constraint_count() >= old(self).constraint_count(),
            final(self).machine() == step(old(self).machine(), Gadget::ReadBase(x.id())),
            agree(final(self).trace(), final(self).machine().vars),
            called(old(self).trace(), final(self).trace(), Gadget::ReadBase(x.id()), r),
            r matches Ok(v) ==> final(self).machine().vars.last() == Var::Value(v),
    {
        self.ledger.aligned();
        let ghost vars = self.ledger.vars();
        let outcome = gadgets::base_var_value(&self.raw, &x.raw);
        let ghost kept = crate::system::outcome(outcome, |x: Fq| Var::Value(x));
        match self.ledger.record(Ghost(Gadget::ReadBase(x.id())), Ghost(vars), Ghost(kept), outcome) {
            Ok(w) => Ok(w.raw),
            Err(e) => Err(e),
        }
    }

    /// Constrains two target-group variables to be equal.
    pub(crate) fn gt_enforce_equal(&mut self, a: &Wire<RawGt>, b: &Wire<RawGt>) -> (r: Result<(), CircuitError>)
        requires
            a.home() == old(self).mark(),
            b.home() == old(self).mark(),
            old(self).holds(a.id(), Var::Gt(a.raw)),
            old(self).holds(b.id(), Var::Gt(b.raw)),
        ensures
            final(self).mark() == old(self).mark(),
            final(self).constraint_count() >= old(self).constraint_count(),
            final(self).machine() == step(old(self).machine(), Gadget::GtEnforceEqual(a.id(), b.id())),
            agree(final(self).trace(), final(self).machine().vars),
            called(old(self).trace(), final(self).trace(), Gadget::GtEnforceEqual(a.id(), b.id()), r),
    {
        self.ledger.aligned();
        let ghost vars = self.ledger.vars();
        let outcome = gadgets::gt_var_enforce_equal(&mut self.raw, &a.raw, &b.raw);
        let ghost kept = crate::system::outcome(outcome, |x: ()| Var::Done);
        match self.ledger.record(
            Ghost(Gadget::GtEnforceEqual(a.id(), b.id())),
            Ghost(vars),
            Ghost(kept),
            outcome,
        ) {
            Ok(_) => Ok(()),
            Err(e) => Err(e),
        }
    }

    /// Starts a sponge with the given configuration.
    pub(crate) fn sponge_new(&mut self, params: &HashParameters) -> (r: Wire<RawSponge>)
        ensures
            final(self).mark() == old(self).mark(),
            final(self).constraint_count() >= old(self).constraint_count(),
            final(self).machine() == step(old(self).machine(), Gadget::SpongeNew(params@)),
            agree(final(self).trace(), final(self).machine().vars),
            final(self).trace() == old(self).trace().push(
                Event { call: Gadget::SpongeNew(params@), failure: None },
            ),
            r.id() == old(self).trace().len(),
            r.home() == old(self).mark(),
            final(self).holds(r.id(), Var::Sponge(r.raw)),
    {
        proof {
            use_type_invariant(params);
        }
        self.ledger.aligned();
        let ghost vars = self.ledger.vars();
        let made = gadgets::sponge_new(&self.raw, params);
        self.ledger.record_sure(Ghost(Gadget::SpongeNew(params@)), Ghost(vars), Ghost(Var::Sponge(made)), made)
    }

    /// Runs the joint Miller loop over the prepared points, paired in step.
    pub(crate) fn miller_loop(&mut self, ps: &Vec<Wire<RawG1Prepared>>, qs: &Vec<Wire<RawG2Prepared>>) -> (r: Result<Wire<RawGt>, CircuitError>)
        requires
            forall|i: int| 0 <= i < ps@.len() ==> (#[trigger] ps@[i]).home() == old(self).mark(),
            forall|i: int| 0 <= i < qs@.len() ==> (#[trigger] qs@[i]).home() == old(self).mark(),
            forall|i: int| 0 <= i < ps@.len() ==> old(self).holds((#[trigger] ps@[i]).id(), Var::G1Prepared(ps@[i].raw)),
            forall|i: int| 0 <= i < qs@.len() ==> old(self).holds((#[trigger] qs@[i]).id(), Var::G2Prepared(qs@[i].raw)),
        ensures
            final(self).mark() == old(self).mark(),
            final(self).constraint_count() >= old(self).constraint_count(),
            final(self).machine() == step(old(self).machine(), Gadget::MillerLoop(ids_of(ps@), ids_of(qs@))),
            agree(final(self).trace(), final(self).machine().vars),
            called(old(self).trace(), final(self).trace(), Gadget::MillerLoop(ids_of(ps@), ids_of(qs@)), r),
            r matches Ok(w) ==> w.id() == old(self).trace().len() && w.home() == old(self).mark()
                && final(self).holds(w.id(), Var::Gt(w.raw)),
    {
        self.ledger.aligned();
        let ghost vars = self.ledger.vars();
        assert(prepared_left(vars, ids_of(ps@)) =~= gadgets::raws_of(ps@));
        assert(prepared_right(vars, ids_of(qs@)) =~= gadgets::raws_of(qs@));
        let outcome = gadgets::miller_loop(&mut self.raw, ps, qs);
        let ghost kept = crate::system::outcome(outcome, |x: RawGt| Var::Gt(x));
        self.ledger.record(Ghost(Gadget::MillerLoop(ids_of(ps@), ids_of(qs@))), Ghost(vars), Ghost(kept), outcome)
    }

    /// Pairs two prepared points.
    pub(crate) fn pairing(&mut self, p: Wire<RawG1Prepared>, q: Wire<RawG2Prepared>) -> (r: Result<Wire<RawGt>, CircuitError>)
        requires
            p.home() == old(self).mark(),
            q.home() == old(self).mark(),
            old(self).holds(p.id(), Var::G1Prepared(p.raw)),
            old(self).holds(q.id(), Var::G2Prepared(q.raw)),
        ensures
            final(self).mark() == old(self).mark(),
            final(self).constraint_count() >= old(self).constraint_count(),
            final(self).machine() == step(old(self).machine(), Gadget::Pairing(p.id(), q.id())),
            agree(final(self).trace(), final(self).machine().vars),
            called(old(self).trace(), final(self).trace(), Gadget::Pairing(p.id(), q.id()), r),
            r matches Ok(w) ==> w.id() == old(self).trace().len() && w.home() == old(self).mark()
                && final(self).holds(w.id(), Var::Gt(w.raw)),
    {
        self.ledger.aligned();
        let ghost vars = self.ledger.vars();
        let ghost call = Gadget::Pairing(p.id(), q.id());
        let outcome = gadgets::pairing(&mut self.raw, p.raw, q.raw);
        let ghost kept = crate::system::outcome(outcome, |x: RawGt| Var::Gt(x));
        self.ledger.record(Ghost(call), Ghost(vars), Ghost(kept), outcome)
    }
}

} // verus!
