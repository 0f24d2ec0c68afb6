//! A stand-alone circuit for arithmetic in a foreign field: two scalars of
//! BLS12-381 are added or multiplied inside a constraint system over the
//! scalar field of BLS12-377.

use vstd::prelude::*;

use crate::catalog::NNAMode;
use crate::dispatch::ran;
use crate::error::CircuitError;
use crate::field::{bls381_scalar_mul, bls381_scalar_product, random_bls381_scalar};
use crate::gadgets;
use crate::gadgets::{RawBls381, RawScalarSystem};
use crate::system::{called, engine_answer, in_circuit_terms, outcome, Event, Gadget, Ledger, Var, Wire};

verus! {

/// A constraint system over the scalar field of BLS12-377.
pub struct ScalarConstraintSystem {
    raw: RawScalarSystem,
    ledger: Ledger,
}

impl ScalarConstraintSystem {
    /// The calls made through this handle, oldest first.
    pub closed spec fn trace(&self) -> Seq<Event> {
        self.ledger@
    }

    /// The mark that the variables of this system carry.
    pub(crate) closed spec fn mark(&self) -> nat {
        self.ledger.mark()
    }

    /// The system itself, as the gadget calls left it.
    pub closed spec fn state(&self) -> RawScalarSystem {
        self.raw
    }

    /// The number of constraints that the system holds.
    pub closed spec fn constraint_count(&self) -> nat {
        gadgets::scalar_constraints_in(self.raw)
    }

    /// The answer of the system to the question whether its assignment
    /// satisfies its constraints: yes, no, or the engine's error where it
    /// cannot tell.
    pub closed spec fn satisfaction(&self) -> Result<bool, CircuitError> {
        in_circuit_terms(gadgets::scalar_satisfaction_of(self.raw))
    }

    /// A fresh constraint system: nothing has been asked of it, it holds no
    /// constraint, and it is satisfied.
    pub fn new() -> (cs: ScalarConstraintSystem)
        ensures
            cs.trace() == Seq::<Event>::empty(),
            cs.constraint_count() == 0,
            cs.satisfaction() == Ok::<bool, CircuitError>(true),
    {
        ScalarConstraintSystem { raw: gadgets::new_scalar_system(), ledger: Ledger::new() }
    }

    /// Asks the system whether its assignment satisfies its constraints.
    /// The system is left as it is.
    pub fn is_satisfied(&self) -> (r: Result<bool, CircuitError>)
        ensures
            r == self.satisfaction(),
    {
        engine_answer(gadgets::scalar_system_is_satisfied(&self.raw))
    }

    /// The number of constraints in the system.  The system is left as it
    /// is.
    pub fn num_constraints(&self) -> (n: usize)
        ensures
            n == self.constraint_count(),
    {
        gadgets::scalar_system_num_constraints(&self.raw)
    }

    /// Allocates a witness for a scalar of BLS12-381.
    pub(crate) fn alloc_witness(&mut self, value: &ark_bls12_381::Fr) -> (r: Result<Wire<RawBls381>, CircuitError>)
        ensures
            final(self).mark() == old(self).mark(),
            final(self).constraint_count() >= old(self).constraint_count(),
            final(self).state() == gadgets::alloc_bls381_effect(old(self).state(), *value).0,
            match gadgets::alloc_bls381_effect(old(self).state(), *value).1 {
                Ok(raw) => r matches Ok(w) && w.raw == raw,
                Err(e) => r == Err::<Wire<RawBls381>, CircuitError>(CircuitError::ConstraintAllocationFailure(e)),
            },
            called(old(self).trace(), final(self).trace(), Gadget::AllocBls381(*value), r),
            r matches Ok(w) ==> w.id() == old(self).trace().len() && w.home() == old(self).mark(),
    {
        self.ledger.aligned();
        let ghost vars = self.ledger.vars();
        let outcome = gadgets::alloc_bls381(&mut self.raw, value);
        let ghost kept = crate::system::outcome(outcome, |x: RawBls381| Var::Bls381(x));
        self.ledger.record(Ghost(Gadget::AllocBls381(*value)), Ghost(vars), Ghost(kept), outcome)
    }

    /// Adds two variables.
    pub(crate) fn add_vars(&mut self, a: &Wire<RawBls381>, b: &Wire<RawBls381>) -> (r: Wire<RawBls381>)
        requires
            a.home() == old(self).mark(),
            b.home() == old(self).mark(),
        ensures
            final(self).mark() == old(self).mark(),
            final(self).constraint_count() >= old(self).constraint_count(),
            final(self).state() == gadgets::bls381_var_add_effect(old(self).state(), a.raw, b.raw).0,
            r.raw == gadgets::bls381_var_add_effect(old(self).state(), a.raw, b.raw).1,
            final(self).trace() == old(self).trace().push(
                Event { call: Gadget::ForeignAdd(a.id(), b.id()), failure: None },
            ),
            r.id() == old(self).trace().len(),
            r.home() == old(self).mark(),
    {
        self.ledger.aligned();
        let ghost vars = self.ledger.vars();
        let made = gadgets::bls381_var_add(&mut self.raw, &a.raw, &b.raw);
        self.ledger.record_sure(
            Ghost(Gadget::ForeignAdd(a.id(), b.id())),
            Ghost(vars),
            Ghost(Var::Bls381(made)),
            made,
        )
    }

    /// Multiplies two variables.
    pub(crate) fn mul_vars(&mut self, a: &Wire<RawBls381>, b: &Wire<RawBls381>) -> (r: Wire<RawBls381>)
        requires
            a.home() == old(self).mark(),
            b.home() == old(self).mark(),
        ensures
            final(self).mark() == old(self).mark(),
            final(self).constraint_count() >= old(self).constraint_count(),
            final(self).state() == gadgets::bls381_var_mul_effect(old(self).state(), a.raw, b.raw).0,
            r.raw == gadgets::bls381_var_mul_effect(old(self).state(), a.raw, b.raw).1,
            final(self).trace() == old(self).trace().push(
                Event { call: Gadget::ForeignMul(a.id(), b.id()), failure: None },
            ),
            r.id() == old(self).trace().len(),
            r.home() == old(self).mark(),
    {
        self.ledger.aligned();
        let ghost vars = self.ledger.vars();
        let made = gadgets::bls381_var_mul(&mut self.raw, &a.raw, &b.raw);
        self.ledger.record_sure(
            Ghost(Gadget::ForeignMul(a.id(), b.id())),
            Ghost(vars),
            Ghost(Var::Bls381(made)),
            made,
        )
    }
}

/// What a foreign-field circuit holds, as mathematics.
pub struct NNACircuitView {
    /// The first operand.
    pub e1: ark_bls12_381::Fr,
    /// The second operand.
    pub e2: ark_bls12_381::Fr,
    /// The product of the two operands.
    pub e3: ark_bls12_381::Fr,
    /// The operation to encode.
    pub m: NNAMode,
}

impl NNACircuitView {
    /// The circuit that two operands give.
    pub open spec fn of(e1: ark_bls12_381::Fr, e2: ark_bls12_381::Fr, m: NNAMode) -> NNACircuitView {
        NNACircuitView { e1, e2, e3: bls381_scalar_product(e1, e2), m }
    }

    /// The system after the calls of the encoding, made on the system `cs`
    /// as far as they succeed: the gadget library's effects, one upon the
    /// other, each on what the earlier calls returned.
    pub open spec fn run(self, cs: RawScalarSystem) -> RawScalarSystem {
        let first = gadgets::alloc_bls381_effect(cs, self.e1);
        match first.1 {
            Err(_) => first.0,
            Ok(x) => {
                let second = gadgets::alloc_bls381_effect(first.0, self.e2);
                match second.1 {
                    Err(_) => second.0,
                    Ok(y) => match self.m {
                        NNAMode::Add => gadgets::bls381_var_add_effect(second.0, x, y).0,
                        NNAMode::Mul => gadgets::bls381_var_mul_effect(second.0, x, y).0,
                    },
                }
            },
        }
    }

    /// What the run returns on the system `cs`: the error of the first
    /// allocation that fails, and success where neither does.
    pub open spec fn result(self, cs: RawScalarSystem) -> Result<(), CircuitError> {
        let first = gadgets::alloc_bls381_effect(cs, self.e1);
        match first.1 {
            Err(e) => Err(CircuitError::ConstraintAllocationFailure(e)),
            Ok(_) => match gadgets::alloc_bls381_effect(first.0, self.e2).1 {
                Err(e) => Err(CircuitError::ConstraintAllocationFailure(e)),
                Ok(_) => Ok(()),
            },
        }
    }

    /// The calls that encode the operation: both operands are allocated,
    /// then added or multiplied.  Nothing is constrained to equal the
    /// result.
    pub open spec fn encoding(self, base: nat) -> Seq<Gadget> {
        seq![
            Gadget::AllocBls381(self.e1),
            Gadget::AllocBls381(self.e2),
            match self.m {
                NNAMode::Add => Gadget::ForeignAdd(base, base + 1),
                NNAMode::Mul => Gadget::ForeignMul(base, base + 1),
            },
        ]
    }
}

/// Two scalars of BLS12-381 with their product, and the operation to
/// encode.
pub struct NNACircuit {
    e1: ark_bls12_381::Fr,
    e2: ark_bls12_381::Fr,
    e3: ark_bls12_381::Fr,
    m: NNAMode,
}

impl View for NNACircuit {
    type V = NNACircuitView;

    closed spec fn view(&self) -> NNACircuitView {
        NNACircuitView { e1: self.e1, e2: self.e2, e3: self.e3, m: self.m }
    }
}

impl NNACircuit {
    /// Samples two operands from the thread's random generator.  Whatever
    /// was drawn, the result is the circuit that `from_elements` makes of
    /// it.
    pub fn new(m: NNAMode) -> (r: NNACircuit)
        ensures
            r@ == NNACircuitView::of(r@.e1, r@.e2, m),
    {
        let e1 = random_bls381_scalar();
        let e2 = random_bls381_scalar();
        NNACircuit::from_elements(e1, e2, m)
    }

    /// The circuit for the operands `e1` and `e2`.
    pub fn from_elements(e1: ark_bls12_381::Fr, e2: ark_bls12_381::Fr, m: NNAMode) -> (r: NNACircuit)
        ensures
            r@ == NNACircuitView::of(e1, e2, m),
    {
        let e3 = bls381_scalar_mul(&e1, &e2);
        NNACircuit { e1, e2, e3, m }
    }

    /// Lays down the constraints of the operation in `cs`: the calls of its
    /// encoding in order, as far as they succeed.  The first failure ends
    /// the run and is returned as it came.  The system is then what the
    /// gadget library makes of the system as it was, call by call.
    pub fn generate_constraints(self, cs: &mut ScalarConstraintSystem) -> (r: Result<(), CircuitError>)
        ensures
            ran(old(cs).trace(), final(cs).trace(), self@.encoding(old(cs).trace().len()), r),
            final(cs).state() == self@.run(old(cs).state()),
            r == self@.result(old(cs).state()),
            final(cs).constraint_count() >= old(cs).constraint_count(),
    {
        let first = cs.alloc_witness(&self.e1)?;
        let second = cs.alloc_witness(&self.e2)?;
        match self.m {
            NNAMode::Add => {
                let _ = cs.add_vars(&first, &second);
            },
            NNAMode::Mul => {
                let _ = cs.mul_vars(&first, &second);
            },
        }
        Ok(())
    }
}

impl NNACircuit {
    /// The first operand.
    pub fn e1(&self) -> (r: &ark_bls12_381::Fr)
        ensures
            *r == self@.e1,
    {
        &self.e1
    }

    /// The second operand.
    pub fn e2(&self) -> (r: &ark_bls12_381::Fr)
        ensures
            *r == self@.e2,
    {
        &self.e2
    }

    /// The product of the two operands.
    pub fn e3(&self) -> (r: &ark_bls12_381::Fr)
        ensures
            *r == self@.e3,
    {
        &self.e3
    }

    /// The operation to encode.
    pub fn m(&self) -> (r: &NNAMode)
        ensures
            *r == self@.m,
    {
        &self.m
    }
}

} // verus!
