//! The circuit dispatcher: for each operation of the catalogue, the gadget
//! calls that lay down its defining relation.
//!
//! A plan is the list of calls that an operation stands for.  A number in a
//! call names the variable that the call at that position of the record
//! returned, so a plan is written for the position `base` at which its first
//! call will stand.

use vstd::prelude::*;

use ark_bls12_377::{Fq, Fr};

use crate::catalog::OpMode;
use crate::error::CircuitError;
use crate::field::embedding;
use crate::gadgets::{RawBase, RawForeign, RawG1Prepared, RawG2Prepared};
use crate::group::{G1Point, G2Point, GtElement};
use crate::params::HashParametersView;
use crate::system::{agree, ids_of, replay, step, ConstraintSystem, Event, Gadget, Machine, Var, Wire};
use crate::witness::{FqCircuit, WitnessBundle};

verus! {

/// `after` begins with `before` and goes on with the first `k` calls of
/// `plan`, none of which failed.
pub open spec fn follows(before: Seq<Event>, after: Seq<Event>, plan: Seq<Gadget>, k: int) -> bool {
    &&& before.len() + k <= after.len()
    &&& forall|j: int| 0 <= j < before.len() ==> #[trigger] after[j] == before[j]
    &&& forall|j: int|
        before.len() <= j < before.len() + k ==> #[trigger] after[j] == (Event {
            call: plan[j - before.len()],
            failure: None,
        })
}

/// What a run of `plan` leaves behind.  On success the record has grown by
/// the whole plan, call by call.  On failure it has grown by the calls up to
/// the one that failed, which is the last and carries the error that is
/// returned; no call was made after it.
pub open spec fn ran<T>(before: Seq<Event>, after: Seq<Event>, plan: Seq<Gadget>, r: Result<T, CircuitError>) -> bool {
    match r {
        Ok(_) => after.len() == before.len() + plan.len() && follows(before, after, plan, plan.len() as int),
        Err(e) => {
            let k = after.len() - before.len() - 1;
            &&& e is ConstraintAllocationFailure
            &&& 0 <= k < plan.len()
            &&& follows(before, after, plan, k)
            &&& after[after.len() - 1] == (Event { call: plan[k], failure: e.cause() })
        },
    }
}

/// What a run of `plan` does to the system: the system and the variables
/// are what the gadget library makes of them, call by call in the order of
/// the plan, for as many calls as the record has grown by.
pub open spec fn worked(before: ConstraintSystem, after: ConstraintSystem, plan: Seq<Gadget>) -> bool {
    after.machine() == replay(before.machine(), plan, after.trace().len() - before.trace().len())
}

/// One more call of a plan is one more step of the gadget library.
pub proof fn replay_step(m: Machine, plan: Seq<Gadget>, k: int)
    requires
        0 <= k,
    ensures
        replay(m, plan, k + 1) == step(replay(m, plan, k), plan[k]),
{
}

/// The first calls of a plan do the same whatever follows them.
pub proof fn replay_of_prefix(m: Machine, plan: Seq<Gadget>, last: Gadget, k: int)
    requires
        k <= plan.len(),
    ensures
        replay(m, plan.push(last), k) == replay(m, plan, k),
    decreases k,
{
    if k > 0 {
        replay_of_prefix(m, plan, last, k - 1);
        assert(plan.push(last)[k - 1] == plan[k - 1]);
    }
}

/// The calls for the product of two target-group elements: `ct` is
/// constrained to equal `at · bt`.
pub open spec fn mul_plan(at: GtElement, bt: GtElement, ct: GtElement, base: nat) -> Seq<Gadget> {
    seq![
        Gadget::AllocGt(ct),
        Gadget::AllocGt(at),
        Gadget::AllocGt(bt),
        Gadget::GtMul(base + 1, base + 2),
        Gadget::GtEnforceEqual(base, base + 3),
    ]
}

/// The calls for a power in the target group: `ct` is constrained to equal
/// `t` raised to the bits of `exponent`, least significant first.
pub open spec fn power_plan(t: GtElement, exponent: Fq, ct: GtElement, base: nat) -> Seq<Gadget> {
    seq![
        Gadget::AllocGt(ct),
        Gadget::AllocGt(t),
        Gadget::AllocBase(exponent),
        Gadget::BaseBits(base + 2),
        Gadget::GtPow(base + 1, base + 3),
        Gadget::GtEnforceEqual(base, base + 4),
    ]
}

/// The calls for the target group's operation under its other name: the
/// product `at · bt` is constrained to equal `ct`.
pub open spec fn add_plan(at: GtElement, bt: GtElement, ct: GtElement, base: nat) -> Seq<Gadget> {
    seq![
        Gadget::AllocGt(at),
        Gadget::AllocGt(bt),
        Gadget::AllocGt(ct),
        Gadget::GtMul(base, base + 1),
        Gadget::GtEnforceEqual(base + 3, base + 2),
    ]
}

/// The calls for the equality of a target-group element with itself.
pub open spec fn equality_plan(ct: GtElement, base: nat) -> Seq<Gadget> {
    seq![Gadget::AllocGt(ct), Gadget::GtEnforceEqual(base, base)]
}

/// The calls for hashing a target-group element: a sponge absorbs the
/// encoding of `at` `n` times over and gives out one base-field element.
/// Each absorption takes the encoding anew.  Where nothing is absorbed,
/// nothing is allocated.
pub open spec fn hash_gt_plan(params: HashParametersView, at: GtElement, base: nat, n: nat) -> Seq<Gadget> {
    if n == 0 {
        seq![Gadget::SpongeNew(params), Gadget::Squeeze(base)]
    } else {
        Seq::new(
            2 * n + 3,
            |i: int|
                if i == 0 {
                    Gadget::SpongeNew(params)
                } else if i == 1 {
                    Gadget::AllocGt(at)
                } else if i == 2 * n + 2 {
                    Gadget::Squeeze(base)
                } else if i % 2 == 0 {
                    Gadget::GtElements(base + 1)
                } else {
                    Gadget::Absorb(base, (base + i - 1) as nat)
                },
        )
    }
}

/// The calls for hashing a base-field element: a sponge absorbs `x` itself
/// `n` times over and gives out one base-field element.  Where nothing is
/// absorbed, nothing is allocated.
pub open spec fn hash_base_plan(params: HashParametersView, x: Fq, base: nat, n: nat) -> Seq<Gadget> {
    if n == 0 {
        seq![Gadget::SpongeNew(params), Gadget::Squeeze(base)]
    } else {
        Seq::new(
            n + 3,
            |i: int|
                if i == 0 {
                    Gadget::SpongeNew(params)
                } else if i == 1 {
                    Gadget::AllocBase(x)
                } else if i == n + 2 {
                    Gadget::Squeeze(base)
                } else {
                    Gadget::AbsorbBase(base, base + 1)
                },
        )
    }
}

/// The calls for hashing a scalar held as a foreign field element: a
/// sponge over the base field absorbs the encoding of `c` `n` times over
/// and gives out one foreign-field element.  Where nothing is absorbed,
/// nothing is allocated.
pub open spec fn hash_foreign_plan(params: HashParametersView, c: Fr, base: nat, n: nat) -> Seq<Gadget> {
    if n == 0 {
        seq![Gadget::SpongeNew(params), Gadget::SqueezeForeign(base)]
    } else {
        Seq::new(
            2 * n + 3,
            |i: int|
                if i == 0 {
                    Gadget::SpongeNew(params)
                } else if i == 1 {
                    Gadget::AllocForeign(c)
                } else if i == 2 * n + 2 {
                    Gadget::SqueezeForeign(base)
                } else if i % 2 == 0 {
                    Gadget::ForeignElements(base + 1)
                } else {
                    Gadget::Absorb(base, (base + i - 1) as nat)
                },
        )
    }
}

/// The prepared points of the first source group that `n` rounds of the
/// Miller plan make.
pub open spec fn miller_left(base: nat, n: nat) -> Seq<nat> {
    Seq::new(n, |k: int| (base + 4 * k + 2) as nat)
}

/// The prepared points of the second source group that `n` rounds of the
/// Miller plan make.
pub open spec fn miller_right(base: nat, n: nat) -> Seq<nat> {
    Seq::new(n, |k: int| (base + 4 * k + 3) as nat)
}

/// The calls for the joint Miller loop over `n` pairs: each pair is
/// allocated and prepared on its own, from `bg` and `ag`, and one loop runs
/// over all of them.
pub open spec fn miller_plan(ag: G1Point, bg: G2Point, base: nat, n: nat) -> Seq<Gadget> {
    Seq::new(
        4 * n + 1,
        |i: int|
            if i == 4 * n {
                Gadget::MillerLoop(miller_left(base, n), miller_right(base, n))
            } else if i % 4 == 0 {
                Gadget::AllocG2(bg)
            } else if i % 4 == 1 {
                Gadget::AllocG1(ag)
            } else if i % 4 == 2 {
                Gadget::PrepareG1((base + i - 1) as nat)
            } else {
                Gadget::PrepareG2((base + i - 3) as nat)
            },
    )
}

/// The calls for the final exponentiation of `at`.  Nothing is constrained
/// to equal the result.
pub open spec fn final_exp_plan(at: GtElement, base: nat) -> Seq<Gadget> {
    seq![Gadget::AllocGt(at), Gadget::FinalExp(base)]
}

/// The calls for the full pairing of `ag` with `bg`.
pub open spec fn pairing_plan(ag: G1Point, bg: G2Point, base: nat) -> Seq<Gadget> {
    seq![
        Gadget::AllocG1(ag),
        Gadget::AllocG2(bg),
        Gadget::PrepareG1(base),
        Gadget::PrepareG2(base + 1),
        Gadget::Pairing(base + 2, base + 3),
    ]
}

/// The calls for a scalar multiplication in the first source group: `ag`
/// times the bits of `scalar`, least significant first.
pub open spec fn g1_mul_plan(ag: G1Point, scalar: Fq, base: nat) -> Seq<Gadget> {
    seq![
        Gadget::AllocG1(ag),
        Gadget::AllocBase(scalar),
        Gadget::BaseBits(base + 1),
        Gadget::G1ScalarMul(base, base + 2),
    ]
}

/// The calls for a scalar multiplication in the second source group.
pub open spec fn g2_mul_plan(bg: G2Point, scalar: Fq, base: nat) -> Seq<Gadget> {
    seq![
        Gadget::AllocG2(bg),
        Gadget::AllocBase(scalar),
        Gadget::BaseBits(base + 1),
        Gadget::G2ScalarMul(base, base + 2),
    ]
}

/// The calls for a sum in a foreign field: `c` is allocated twice over and
/// the two variables are added.
pub open spec fn foreign_add_plan(c: Fr, base: nat) -> Seq<Gadget> {
    seq![Gadget::AllocForeign(c), Gadget::AllocForeign(c), Gadget::ForeignAdd(base, base + 1)]
}

/// The calls for a product in a foreign field: `c` is allocated twice over
/// and the two variables are multiplied.
pub open spec fn foreign_mul_plan(c: Fr, base: nat) -> Seq<Gadget> {
    seq![Gadget::AllocForeign(c), Gadget::AllocForeign(c), Gadget::ForeignMul(base, base + 1)]
}

/// The calls for a scalar multiplication in the first source group by a
/// scalar held as a foreign field element.
pub open spec fn foreign_g1_mul_plan(c: Fr, ag: G1Point, base: nat) -> Seq<Gadget> {
    seq![
        Gadget::AllocForeign(c),
        Gadget::AllocG1(ag),
        Gadget::ForeignBits(base),
        Gadget::G1ScalarMul(base + 1, base + 2),
    ]
}

/// A hashing plan followed by the reading of what its last call squeezed
/// out.
pub open spec fn digest_plan(hashing: Seq<Gadget>, base: nat) -> Seq<Gadget> {
    hashing.push(Gadget::ReadBase((base + hashing.len() - 1) as nat))
}

impl WitnessBundle {
    /// The calls that encode the instance's operation, written for a record
    /// that holds `base` calls already.  An operation without an encoding
    /// has no calls.
    pub open spec fn encoding(self, base: nat) -> Seq<Gadget> {
        match self.mode {
            OpMode::Mul => mul_plan(self.at, self.bt, self.ct, base),
            OpMode::GtMul => power_plan(self.t, embedding(self.c), self.ct, base),
            OpMode::GtAdd => add_plan(self.at, self.bt, self.ct, base),
            OpMode::Equality => equality_plan(self.ct, base),
            OpMode::HashGT(n) => hash_gt_plan(self.poseidon_params, self.at, base, n as nat),
            OpMode::HashFr(n) => hash_base_plan(self.poseidon_params, embedding(self.c), base, n as nat),
            OpMode::NNAHash(n) => hash_foreign_plan(self.poseidon_params, self.c, base, n as nat),
            OpMode::G1Mul => g1_mul_plan(self.ag, embedding(self.c), base),
            OpMode::G2Mul => g2_mul_plan(self.bg, embedding(self.c), base),
            OpMode::MillerLoop(n) => miller_plan(self.ag, self.bg, base, n as nat),
            OpMode::FinalExp => final_exp_plan(self.at, base),
            OpMode::Pairing => pairing_plan(self.ag, self.bg, base),
            OpMode::NNAFieldAddOverFq => foreign_add_plan(self.c, base),
            OpMode::NNAFieldMulOverFq => foreign_mul_plan(self.c, base),
            OpMode::NNAG1Mul => foreign_g1_mul_plan(self.c, self.ag, base),
            OpMode::NNAFielAddOverF2 => Seq::empty(),
        }
    }
}

impl FqCircuit {
    fn emit_mul(&self, cs: &mut ConstraintSystem) -> (r: Result<(), CircuitError>)
        ensures
            final(cs).constraint_count() >= old(cs).constraint_count(),
            ran(
                old(cs).trace(),
                final(cs).trace(),
                mul_plan(self@.at, self@.bt, self@.ct, old(cs).trace().len()),
                r,
            ),
            worked(
                *old(cs),
                *final(cs),
                mul_plan(self@.at, self@.bt, self@.ct, old(cs).trace().len()),
            ),
    {
        cs.aligned();
        proof {
            reveal_with_fuel(replay, 8);
        }
        let ct = cs.alloc_gt(self.ct())?;
        let at = cs.alloc_gt(self.at())?;
        let bt = cs.alloc_gt(self.bt())?;
        let product = cs.gt_mul(&at, &bt);
        cs.gt_enforce_equal(&ct, &product)
    }

    fn emit_power(&self, cs: &mut ConstraintSystem) -> (r: Result<(), CircuitError>)
        ensures
            final(cs).constraint_count() >= old(cs).constraint_count(),
            ran(
                old(cs).trace(),
                final(cs).trace(),
                power_plan(self@.t, embedding(self@.c), self@.ct, old(cs).trace().len()),
                r,
            ),
            worked(
                *old(cs),
                *final(cs),
                power_plan(self@.t, embedding(self@.c), self@.ct, old(cs).trace().len()),
            ),
    {
        cs.aligned();
        proof {
            reveal_with_fuel(replay, 8);
        }
        let ct = cs.alloc_gt(self.ct())?;
        let t = cs.alloc_gt(self.t())?;
        let c = cs.alloc_base(self.c_in_base())?;
        let bits = cs.base_bits(&c)?;
        let power = cs.gt_pow(&t, &bits)?;
        cs.gt_enforce_equal(&ct, &power)
    }

    fn emit_add(&self, cs: &mut ConstraintSystem) -> (r: Result<(), CircuitError>)
        ensures
            final(cs).constraint_count() >= old(cs).constraint_count(),
            ran(
                old(cs).trace(),
                final(cs).trace(),
                add_plan(self@.at, self@.bt, self@.ct, old(cs).trace().len()),
                r,
            ),
            worked(
                *old(cs),
                *final(cs),
                add_plan(self@.at, self@.bt, self@.ct, old(cs).trace().len()),
            ),
    {
        cs.aligned();
        proof {
            reveal_with_fuel(replay, 8);
        }
        let a = cs.alloc_gt(self.at())?;
        let b = cs.alloc_gt(self.bt())?;
        let expected = cs.alloc_gt(self.ct())?;
        let c = cs.gt_mul(&a, &b);
        cs.gt_enforce_equal(&c, &expected)
    }

    fn emit_equality(&self, cs: &mut ConstraintSystem) -> (r: Result<(), CircuitError>)
        ensures
            final(cs).constraint_count() >= old(cs).constraint_count(),
            ran(old(cs).trace(), final(cs).trace(), equality_plan(self@.ct, old(cs).trace().len()), r),
            worked(*old(cs), *final(cs), equality_plan(self@.ct, old(cs).trace().len())),
    {
        cs.aligned();
        proof {
            reveal_with_fuel(replay, 8);
        }
        let ct = cs.alloc_gt(self.ct())?;
        cs.gt_enforce_equal(&ct, &ct)
    }

    fn emit_final_exp(&self, cs: &mut ConstraintSystem) -> (r: Result<(), CircuitError>)
        ensures
            final(cs).constraint_count() >= old(cs).constraint_count(),
            ran(old(cs).trace(), final(cs).trace(), final_exp_plan(self@.at, old(cs).trace().len()), r),
            worked(*old(cs), *final(cs), final_exp_plan(self@.at, old(cs).trace().len())),
    {
        cs.aligned();
        proof {
            reveal_with_fuel(replay, 8);
        }
        let at = cs.alloc_gt(self.at())?;
        match cs.final_exponentiation(&at) {
            Ok(_) => Ok(()),
            Err(e) => Err(e),
        }
    }

    fn emit_pairing(&self, cs: &mut ConstraintSystem) -> (r: Result<(), CircuitError>)
        ensures
            final(cs).constraint_count() >= old(cs).constraint_count(),
            ran(
                old(cs).trace(),
                final(cs).trace(),
                pairing_plan(self@.ag, self@.bg, old(cs).trace().len()),
                r,
            ),
            worked(
                *old(cs),
                *final(cs),
                pairing_plan(self@.ag, self@.bg, old(cs).trace().len()),
            ),
    {
        cs.aligned();
        proof {
            reveal_with_fuel(replay, 8);
        }
        let ag = cs.alloc_g1(self.ag())?;
        let bg = cs.alloc_g2(self.bg())?;
        let prepared_ag = cs.prepare_g1(&ag)?;
        let prepared_bg = cs.prepare_g2(&bg)?;
        match cs.pairing(prepared_ag, prepared_bg) {
            Ok(_) => Ok(()),
            Err(e) => Err(e),
        }
    }

    fn emit_g1_mul(&self, cs: &mut ConstraintSystem) -> (r: Result<(), CircuitError>)
        ensures
            final(cs).constraint_count() >= old(cs).constraint_count(),
            ran(
                old(cs).trace(),
                final(cs).trace(),
                g1_mul_plan(self@.ag, embedding(self@.c), old(cs).trace().len()),
                r,
            ),
            worked(
                *old(cs),
                *final(cs),
                g1_mul_plan(self@.ag, embedding(self@.c), old(cs).trace().len()),
            ),
    {
        cs.aligned();
        proof {
            reveal_with_fuel(replay, 8);
        }
        let ag = cs.alloc_g1(self.ag())?;
        let c = cs.alloc_base(self.c_in_base())?;
        let bits = cs.base_bits(&c)?;
        match cs.g1_scalar_mul(&ag, &bits) {
            Ok(_) => Ok(()),
            Err(e) => Err(e),
        }
    }

    fn emit_g2_mul(&self, cs: &mut ConstraintSystem) -> (r: Result<(), CircuitError>)
        ensures
            final(cs).constraint_count() >= old(cs).constraint_count(),
            ran(
                old(cs).trace(),
                final(cs).trace(),
                g2_mul_plan(self@.bg, embedding(self@.c), old(cs).trace().len()),
                r,
            ),
            worked(
                *old(cs),
                *final(cs),
                g2_mul_plan(self@.bg, embedding(self@.c), old(cs).trace().len()),
            ),
    {
        cs.aligned();
        proof {
            reveal_with_fuel(replay, 8);
        }
        let bg = cs.alloc_g2(self.bg())?;
        let c = cs.alloc_base(self.c_in_base())?;
        let bits = cs.base_bits(&c)?;
        match cs.g2_scalar_mul(&bg, &bits) {
            Ok(_) => Ok(()),
            Err(e) => Err(e),
        }
    }

    fn emit_foreign_add(&self, cs: &mut ConstraintSystem) -> (r: Result<(), CircuitError>)
        ensures
            final(cs).constraint_count() >= old(cs).constraint_count(),
            ran(old(cs).trace(), final(cs).trace(), foreign_add_plan(self@.c, old(cs).trace().len()), r),
            worked(*old(cs), *final(cs), foreign_add_plan(self@.c, old(cs).trace().len())),
    {
        cs.aligned();
        proof {
            reveal_with_fuel(replay, 8);
        }
        let first = cs.alloc_foreign(self.c())?;
        let second = cs.alloc_foreign(self.c())?;
        let _ = cs.foreign_add(&first, &second);
        Ok(())
    }

    fn emit_foreign_mul(&self, cs: &mut ConstraintSystem) -> (r: Result<(), CircuitError>)
        ensures
            final(cs).constraint_count() >= old(cs).constraint_count(),
            ran(old(cs).trace(), final(cs).trace(), foreign_mul_plan(self@.c, old(cs).trace().len()), r),
            worked(*old(cs), *final(cs), foreign_mul_plan(self@.c, old(cs).trace().len())),
    {
        cs.aligned();
        proof {
            reveal_with_fuel(replay, 8);
        }
        let first = cs.alloc_foreign(self.c())?;
        let second = cs.alloc_foreign(self.c())?;
        let _ = cs.foreign_mul(&first, &second);
        Ok(())
    }

    fn emit_foreign_g1_mul(&self, cs: &mut ConstraintSystem) -> (r: Result<(), CircuitError>)
        ensures
            final(cs).constraint_count() >= old(cs).constraint_count(),
            ran(
                old(cs).trace(),
                final(cs).trace(),
                foreign_g1_mul_plan(self@.c, self@.ag, old(cs).trace().len()),
                r,
            ),
            worked(
                *old(cs),
                *final(cs),
                foreign_g1_mul_plan(self@.c, self@.ag, old(cs).trace().len()),
            ),
    {
        cs.aligned();
        proof {
            reveal_with_fuel(replay, 8);
        }
        let scalar = cs.alloc_foreign(self.c())?;
        let ag = cs.alloc_g1(self.ag())?;
        let bits = cs.foreign_bits(&scalar)?;
        match cs.g1_scalar_mul(&ag, &bits) {
            Ok(_) => Ok(()),
            Err(e) => Err(e),
        }
    }
}

impl FqCircuit {
    /// Hashes the target-group element `at`: a sponge absorbs its encoding
    /// `n` times over and one base-field variable is squeezed out, which is
    /// returned.
    fn emit_hash_gt(&self, cs: &mut ConstraintSystem, n: usize) -> (r: Result<Wire<RawBase>, CircuitError>)
        ensures
            final(cs).constraint_count() >= old(cs).constraint_count(),
            ran(
                old(cs).trace(),
                final(cs).trace(),
                hash_gt_plan(self@.poseidon_params, self@.at, old(cs).trace().len(), n as nat),
                r,
            ),
            worked(
                *old(cs),
                *final(cs),
                hash_gt_plan(self@.poseidon_params, self@.at, old(cs).trace().len(), n as nat),
            ),
            r matches Ok(w) ==> w.id() + 1 == final(cs).trace().len() && w.home() == final(cs).mark()
                && final(cs).holds(w.id(), Var::Base(w.raw)),
    {
        cs.aligned();
        let ghost start = cs.machine();
        let ghost before = cs.trace();
        let ghost plan = hash_gt_plan(self@.poseidon_params, self@.at, before.len(), n as nat);
        proof {
            replay_step(start, plan, 0);
            replay_step(start, plan, 1);
            replay_step(start, plan, plan.len() - 1);
        }
        let mut sponge = cs.sponge_new(self.poseidon_params());
        if n > 0 {
            let at = cs.alloc_gt(self.at())?;
            let mut i: usize = 0;
            while i < n
                invariant
                    cs.constraint_count() >= old(cs).constraint_count(),
                    0 < n,
                    i <= n,
                    before == old(cs).trace(),
                    plan == hash_gt_plan(self@.poseidon_params, self@.at, before.len(), n as nat),
                    cs.mark() == old(cs).mark(),
                    sponge.home() == cs.mark(),
                    at.home() == cs.mark(),
                    start == old(cs).machine(),
                    cs.machine() == replay(start, plan, 2 + 2 * i),
                    agree(cs.trace(), cs.machine().vars),
                    cs.holds(sponge.id(), Var::Sponge(sponge.raw)),
                    cs.holds(at.id(), Var::Gt(at.raw)),
                    sponge.id() == before.len(),
                    at.id() == before.len() + 1,
                    cs.trace().len() == before.len() + 2 + 2 * i,
                    follows(before, cs.trace(), plan, 2 + 2 * i),
                decreases n - i,
            {
                proof {
                    replay_step(start, plan, 2 + 2 * i + 0);
                    replay_step(start, plan, 2 + 2 * i + 1);
                }
                let elements = cs.gt_elements(&at)?;
                cs.absorb(&mut sponge, &elements)?;
                i = i + 1;
            }
        }
        cs.squeeze(&mut sponge)
    }

    /// Hashes the scalar `c`, carried over into the base field: a sponge
    /// absorbs it `n` times over and one base-field variable is squeezed
    /// out, which is returned.
    fn emit_hash_base(&self, cs: &mut ConstraintSystem, n: usize) -> (r: Result<Wire<RawBase>, CircuitError>)
        ensures
            final(cs).constraint_count() >= old(cs).constraint_count(),
            ran(
                old(cs).trace(),
                final(cs).trace(),
                hash_base_plan(self@.poseidon_params, embedding(self@.c), old(cs).trace().len(), n as nat),
                r,
            ),
            worked(
                *old(cs),
                *final(cs),
                hash_base_plan(self@.poseidon_params, embedding(self@.c), old(cs).trace().len(), n as nat),
            ),
            r matches Ok(w) ==> w.id() + 1 == final(cs).trace().len() && w.home() == final(cs).mark()
                && final(cs).holds(w.id(), Var::Base(w.raw)),
    {
        cs.aligned();
        let ghost start = cs.machine();
        let ghost before = cs.trace();
        let ghost plan = hash_base_plan(self@.poseidon_params, embedding(self@.c), before.len(), n as nat);
        proof {
            replay_step(start, plan, 0);
            replay_step(start, plan, 1);
            replay_step(start, plan, plan.len() - 1);
        }
        let mut sponge = cs.sponge_new(self.poseidon_params());
        if n > 0 {
            let c = cs.alloc_base(self.c_in_base())?;
            let mut i: usize = 0;
            while i < n
                invariant
                    cs.constraint_count() >= old(cs).constraint_count(),
                    0 < n,
                    i <= n,
                    before == old(cs).trace(),
                    plan == hash_base_plan(self@.poseidon_params, embedding(self@.c), before.len(), n as nat),
                    cs.mark() == old(cs).mark(),
                    sponge.home() == cs.mark(),
                    c.home() == cs.mark(),
                    start == old(cs).machine(),
                    cs.machine() == replay(start, plan, 2 + i),
                    agree(cs.trace(), cs.machine().vars),
                    cs.holds(sponge.id(), Var::Sponge(sponge.raw)),
                    cs.holds(c.id(), Var::Base(c.raw)),
                    sponge.id() == before.len(),
                    c.id() == before.len() + 1,
                    cs.trace().len() == before.len() + 2 + i,
                    follows(before, cs.trace(), plan, 2 + i),
                decreases n - i,
            {
                proof {
                    replay_step(start, plan, 2 + i + 0);
                }
                cs.absorb_base(&mut sponge, &c)?;
                i = i + 1;
            }
        }
        cs.squeeze(&mut sponge)
    }

    /// Hashes the scalar `c`, held as a foreign field element: a sponge
    /// absorbs its encoding `n` times over and one foreign-field variable is
    /// squeezed out, which is returned.
    fn emit_hash_foreign(&self, cs: &mut ConstraintSystem, n: usize) -> (r: Result<Wire<RawForeign>, CircuitError>)
        ensures
            final(cs).constraint_count() >= old(cs).constraint_count(),
            ran(
                old(cs).trace(),
                final(cs).trace(),
                hash_foreign_plan(self@.poseidon_params, self@.c, old(cs).trace().len(), n as nat),
                r,
            ),
            worked(
                *old(cs),
                *final(cs),
                hash_foreign_plan(self@.poseidon_params, self@.c, old(cs).trace().len(), n as nat),
            ),
    {
        cs.aligned();
        let ghost start = cs.machine();
        let ghost before = cs.trace();
        let ghost plan = hash_foreign_plan(self@.poseidon_params, self@.c, before.len(), n as nat);
        proof {
            replay_step(start, plan, 0);
            replay_step(start, plan, 1);
            replay_step(start, plan, plan.len() - 1);
        }
        let mut sponge = cs.sponge_new(self.poseidon_params());
        if n > 0 {
            let c = cs.alloc_foreign(self.c())?;
            let mut i: usize = 0;
            while i < n
                invariant
                    cs.constraint_count() >= old(cs).constraint_count(),
                    0 < n,
                    i <= n,
                    before == old(cs).trace(),
                    plan == hash_foreign_plan(self@.poseidon_params, self@.c, before.len(), n as nat),
                    cs.mark() == old(cs).mark(),
                    sponge.home() == cs.mark(),
                    c.home() == cs.mark(),
                    start == old(cs).machine(),
                    cs.machine() == replay(start, plan, 2 + 2 * i),
                    agree(cs.trace(), cs.machine().vars),
                    cs.holds(sponge.id(), Var::Sponge(sponge.raw)),
                    cs.holds(c.id(), Var::Foreign(c.raw)),
                    sponge.id() == before.len(),
                    c.id() == before.len() + 1,
                    cs.trace().len() == before.len() + 2 + 2 * i,
                    follows(before, cs.trace(), plan, 2 + 2 * i),
                decreases n - i,
            {
                proof {
                    replay_step(start, plan, 2 + 2 * i + 0);
                    replay_step(start, plan, 2 + 2 * i + 1);
                }
                let elements = cs.foreign_elements(&c)?;
                cs.absorb(&mut sponge, &elements)?;
                i = i + 1;
            }
        }
        cs.squeeze_foreign(&mut sponge)
    }

    /// Allocates and prepares `n` pairs from `bg` and `ag`, and runs the
    /// joint Miller loop over them.
    fn emit_miller_loop(&self, cs: &mut ConstraintSystem, n: usize) -> (r: Result<(), CircuitError>)
        ensures
            final(cs).constraint_count() >= old(cs).constraint_count(),
            ran(
                old(cs).trace(),
                final(cs).trace(),
                miller_plan(self@.ag, self@.bg, old(cs).trace().len(), n as nat),
                r,
            ),
            worked(
                *old(cs),
                *final(cs),
                miller_plan(self@.ag, self@.bg, old(cs).trace().len(), n as nat),
            ),
    {
        cs.aligned();
        let ghost start = cs.machine();
        let ghost before = cs.trace();
        let ghost plan = miller_plan(self@.ag, self@.bg, before.len(), n as nat);
        let mut ps: Vec<Wire<RawG1Prepared>> = Vec::new();
        let mut qs: Vec<Wire<RawG2Prepared>> = Vec::new();
        let mut i: usize = 0;
        while i < n
            invariant
                cs.constraint_count() >= old(cs).constraint_count(),
                i <= n,
                before == old(cs).trace(),
                plan == miller_plan(self@.ag, self@.bg, before.len(), n as nat),
                cs.trace().len() == before.len() + 4 * i,
                follows(before, cs.trace(), plan, 4 * i),
                cs.mark() == old(cs).mark(),
                start == old(cs).machine(),
                cs.machine() == replay(start, plan, 4 * i),
                agree(cs.trace(), cs.machine().vars),
                forall|k: int| 0 <= k < i ==> (#[trigger] ps@[k]).home() == cs.mark(),
                forall|k: int| 0 <= k < i ==> (#[trigger] qs@[k]).home() == cs.mark(),
                forall|k: int| 0 <= k < i ==> cs.holds((#[trigger] ps@[k]).id(), Var::G1Prepared(ps@[k].raw)),
                forall|k: int| 0 <= k < i ==> cs.holds((#[trigger] qs@[k]).id(), Var::G2Prepared(qs@[k].raw)),
                ps@.len() == i,
                qs@.len() == i,
                forall|k: int| 0 <= k < i ==> (#[trigger] ps@[k]).id() == before.len() + 4 * k + 2,
                forall|k: int| 0 <= k < i ==> (#[trigger] qs@[k]).id() == before.len() + 4 * k + 3,
            decreases n - i,
        {
            proof {
                replay_step(start, plan, 4 * i + 0);
                replay_step(start, plan, 4 * i + 1);
                replay_step(start, plan, 4 * i + 2);
                replay_step(start, plan, 4 * i + 3);
            }
            let bg = cs.alloc_g2(self.bg())?;
            let ag = cs.alloc_g1(self.ag())?;
            let prepared_ag = cs.prepare_g1(&ag)?;
            let prepared_bg = cs.prepare_g2(&bg)?;
            ps.push(prepared_ag);
            qs.push(prepared_bg);
            i = i + 1;
        }
        assert(ids_of(ps@) =~= miller_left(before.len(), n as nat));
        assert(ids_of(qs@) =~= miller_right(before.len(), n as nat));
        proof {
            replay_step(start, plan, 4 * n);
        }
        match cs.miller_loop(&ps, &qs) {
            Ok(_) => Ok(()),
            Err(e) => Err(e),
        }
    }
}

impl FqCircuit {
    /// Lays down the constraints of the instance's operation in `cs`.
    ///
    /// An operation without an encoding is refused before anything is asked
    /// of `cs`.  For every other operation the calls of its encoding are
    /// made in order, as far as they succeed; the first failure ends the
    /// run and is returned as it came.  The system is then what the gadget
    /// library makes of the system as it was, call by call, each call on the
    /// values of the instance and on what the earlier calls returned.
    pub fn generate_constraints(self, cs: &mut ConstraintSystem) -> (r: Result<(), CircuitError>)
        ensures
            final(cs).constraint_count() >= old(cs).constraint_count(),
            r == Err::<(), CircuitError>(CircuitError::UnsupportedOperation) <==> !self@.mode.has_encoding(),
            !self@.mode.has_encoding() ==> final(cs).trace() == old(cs).trace()
                && final(cs).machine() == old(cs).machine()
                && final(cs).constraint_count() == old(cs).constraint_count()
                && final(cs).satisfaction() == old(cs).satisfaction(),
            self@.mode.has_encoding() ==> ran(
                old(cs).trace(),
                final(cs).trace(),
                self@.encoding(old(cs).trace().len()),
                r,
            ),
            self@.mode.has_encoding() ==> worked(*old(cs), *final(cs), self@.encoding(old(cs).trace().len())),
            agree(final(cs).trace(), final(cs).machine().vars),
    {
        let r = match self.mode() {
            OpMode::Mul => self.emit_mul(cs),
            OpMode::GtMul => self.emit_power(cs),
            OpMode::GtAdd => self.emit_add(cs),
            OpMode::Equality => self.emit_equality(cs),
            OpMode::HashGT(n) => match self.emit_hash_gt(cs, *n) {
                Ok(_) => Ok(()),
                Err(e) => Err(e),
            },
            OpMode::HashFr(n) => match self.emit_hash_base(cs, *n) {
                Ok(_) => Ok(()),
                Err(e) => Err(e),
            },
            OpMode::NNAHash(n) => match self.emit_hash_foreign(cs, *n) {
                Ok(_) => Ok(()),
                Err(e) => Err(e),
            },
            OpMode::G1Mul => self.emit_g1_mul(cs),
            OpMode::G2Mul => self.emit_g2_mul(cs),
            OpMode::MillerLoop(n) => self.emit_miller_loop(cs, *n),
            OpMode::FinalExp => self.emit_final_exp(cs),
            OpMode::Pairing => self.emit_pairing(cs),
            OpMode::NNAFieldAddOverFq => self.emit_foreign_add(cs),
            OpMode::NNAFieldMulOverFq => self.emit_foreign_mul(cs),
            OpMode::NNAG1Mul => self.emit_foreign_g1_mul(cs),
            OpMode::NNAFielAddOverF2 => Err(CircuitError::UnsupportedOperation),
        };
        cs.aligned();
        r
    }

    /// Hashes the target-group element `at` in `cs`, absorbing it `count`
    /// times over, and returns the value that the system assigns to the
    /// squeezed variable.  The calls are those of `OpMode::HashGT(count)`,
    /// and one more that reads the value.
    pub fn hash_target_group(&self, cs: &mut ConstraintSystem, count: usize) -> (r: Result<Fq, CircuitError>)
        ensures
            final(cs).constraint_count() >= old(cs).constraint_count(),
            ran(
                old(cs).trace(),
                final(cs).trace(),
                digest_plan(
                    hash_gt_plan(self@.poseidon_params, self@.at, old(cs).trace().len(), count as nat),
                    old(cs).trace().len(),
                ),
                r,
            ),
            worked(
                *old(cs),
                *final(cs),
                digest_plan(
                    hash_gt_plan(self@.poseidon_params, self@.at, old(cs).trace().len(), count as nat),
                    old(cs).trace().len(),
                ),
            ),
            r matches Ok(v) ==> final(cs).machine().vars.last() == Var::Value(v),
    {
        let ghost start = cs.machine();
        let ghost hashing = hash_gt_plan(self@.poseidon_params, self@.at, cs.trace().len(), count as nat);
        let ghost reading = Gadget::ReadBase((cs.trace().len() + hashing.len() - 1) as nat);
        proof {
            assert forall|k: int| k <= hashing.len() implies #[trigger] replay(start, hashing.push(reading), k)
                == replay(start, hashing, k) by {
                replay_of_prefix(start, hashing, reading, k);
            }
            replay_step(start, hashing.push(reading), hashing.len() as int);
        }
        let squeezed = self.emit_hash_gt(cs, count)?;
        cs.read_base(&squeezed)
    }

    /// Hashes the scalar `c`, carried over into the base field, in `cs`,
    /// absorbing it `count` times over, and returns the value that the
    /// system assigns to the squeezed variable.  The calls are those of
    /// `OpMode::HashFr(count)`, and one more that reads the value.
    pub fn hash_base_field(&self, cs: &mut ConstraintSystem, count: usize) -> (r: Result<Fq, CircuitError>)
        ensures
            final(cs).constraint_count() >= old(cs).constraint_count(),
            ran(
                old(cs).trace(),
                final(cs).trace(),
                digest_plan(
                    hash_base_plan(
                        self@.poseidon_params,
                        embedding(self@.c),
                        old(cs).trace().len(),
                        count as nat,
                    ),
                    old(cs).trace().len(),
                ),
                r,
            ),
            worked(
                *old(cs),
                *final(cs),
                digest_plan(
                    hash_base_plan(
                        self@.poseidon_params,
                        embedding(self@.c),
                        old(cs).trace().len(),
                        count as nat,
                    ),
                    old(cs).trace().len(),
                ),
            ),
            r matches Ok(v) ==> final(cs).machine().vars.last() == Var::Value(v),
    {
        let ghost start = cs.machine();
        let ghost hashing = hash_base_plan(
            self@.poseidon_params,
            embedding(self@.c),
            cs.trace().len(),
            count as nat,
        );
        let ghost reading = Gadget::ReadBase((cs.trace().len() + hashing.len() - 1) as nat);
        proof {
            assert forall|k: int| k <= hashing.len() implies #[trigger] replay(start, hashing.push(reading), k)
                == replay(start, hashing, k) by {
                replay_of_prefix(start, hashing, reading, k);
            }
            replay_step(start, hashing.push(reading), hashing.len() as int);
        }
        let squeezed = self.emit_hash_base(cs, count)?;
        cs.read_base(&squeezed)
    }
}

} // verus!
