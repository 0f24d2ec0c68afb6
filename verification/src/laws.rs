//! What holds of every instance and of every encoding.

use vstd::prelude::*;

use ark_bls12_377::{Fq, Fr};

use crate::catalog::OpMode;
use crate::dispatch::{miller_left, miller_plan, miller_right, pairing_plan, ran, worked};
use crate::error::CircuitError;
use crate::field::{base_value, embedding, scalar_sum, scalar_value};
use crate::group::{final_exponentiation_of, gt_power, gt_product, G1Point, G2Point, GtElement};
use crate::nna::NNACircuitView;
use crate::params::HashParametersView;
use crate::system::{agree, failure_in, ConstraintSystem, Event, Gadget, Var};
use crate::witness::{sampled, FqCircuit, WitnessBundle};

verus! {

/// An instance exists only where the pairing is bilinear on the sampled
/// scalars: the pairing of `c·G1` is the product of the pairings of `a·G1`
/// and `b·G1`, it is `t^a · t^b`, and it is `t^c`, for `c = a + b`; and `t`
/// is the final exponentiation of the Miller output that the instance holds.
pub proof fn instance_is_bilinear(
    r: Result<FqCircuit, CircuitError>,
    a: Fr,
    b: Fr,
    t: GtElement,
    miller_out: GtElement,
    mode: OpMode,
    poseidon_params: HashParametersView,
)
    requires
        sampled(r, a, b, t, miller_out, mode, poseidon_params),
        r is Ok,
    ensures
        r.unwrap()@.c == scalar_sum(a, b),
        r.unwrap()@.t == t,
        r.unwrap()@.miller_out == miller_out,
        final_exponentiation_of(miller_out) == Some(t),
        r.unwrap()@.ct == gt_product(r.unwrap()@.at, r.unwrap()@.bt),
        r.unwrap()@.ct == gt_product(gt_power(t, scalar_value(a)), gt_power(t, scalar_value(b))),
        r.unwrap()@.ct == gt_power(t, scalar_value(r.unwrap()@.c)),
        r.unwrap()@.consistent(),
{
}

/// Exactly one operation of the catalogue has no encoding, and it stands
/// for no call.  Every other operation stands for at least one.
pub proof fn encoded_operations_make_calls(w: WitnessBundle, base: nat)
    ensures
        w.mode.has_encoding() <==> w.encoding(base).len() > 0,
        w.mode.has_encoding() <==> !(w.mode is NNAFielAddOverF2),
{
}

/// The number of calls that a counted operation stands for.
pub open spec fn counted_calls(mode: OpMode) -> nat {
    match mode {
        OpMode::HashGT(n) => if n == 0 { 2 } else { (2 * n + 3) as nat },
        OpMode::HashFr(n) => if n == 0 { 2 } else { (n + 3) as nat },
        OpMode::NNAHash(n) => if n == 0 { 2 } else { (2 * n + 3) as nat },
        OpMode::MillerLoop(n) => (4 * n + 1) as nat,
        _ => 0,
    }
}

/// Whether two operations are the same but for their repetition count.
pub open spec fn same_kind(first: OpMode, second: OpMode) -> bool {
    ||| first is HashGT && second is HashGT
    ||| first is HashFr && second is HashFr
    ||| first is NNAHash && second is NNAHash
    ||| first is MillerLoop && second is MillerLoop
}

/// A counted operation has an encoding for every count, none and one
/// included, and the number of its calls is known from the count.
pub proof fn counted_encoding_length(w: WitnessBundle, base: nat)
    requires
        w.mode.repetitions() is Some,
    ensures
        w.mode.has_encoding(),
        w.encoding(base).len() == counted_calls(w.mode),
{
}

/// A counted operation never stands for fewer calls when its count grows.
pub proof fn calls_grow_with_count(first: WitnessBundle, second: WitnessBundle, base: nat)
    requires
        same_kind(first.mode, second.mode),
        first.mode.repetitions().unwrap() <= second.mode.repetitions().unwrap(),
    ensures
        first.encoding(base).len() <= second.encoding(base).len(),
{
}

/// A call of an encoding works only on variables that earlier calls of the
/// same encoding returned.
pub proof fn operands_are_earlier_results(w: WitnessBundle, base: nat, i: int, x: nat)
    requires
        0 <= i < w.encoding(base).len(),
        w.encoding(base)[i].operands().contains(x),
    ensures
        base <= x < base + i,
{
    let plan = w.encoding(base);
    match w.mode {
        OpMode::MillerLoop(n) => {
            if i == 4 * n {
                let left = miller_left(base, n as nat);
                let right = miller_right(base, n as nat);
                assert(plan[i] == Gadget::MillerLoop(left, right));
                if left.contains(x) {
                    let k = choose|k: int| 0 <= k < left.len() && left[k] == x;
                    assert(x == base + 4 * k + 2);
                } else {
                    let k = choose|k: int| 0 <= k < right.len() && right[k] == x;
                    assert(x == base + 4 * k + 3);
                }
            }
        },
        _ => {},
    }
}

/// No witness is allocated in vain: a later call of the same encoding works
/// on every variable that an allocation returned.
pub proof fn allocations_are_used(w: WitnessBundle, base: nat, i: int)
    requires
        0 <= i < w.encoding(base).len(),
        w.encoding(base)[i].is_allocation(),
    ensures
        exists|j: int| i < j < w.encoding(base).len() && #[trigger] w.encoding(base)[j].operands().contains((base + i) as nat),
{
    let plan = w.encoding(base);
    let x = (base + i) as nat;
    let j: int = match w.mode {
        OpMode::Mul => if i == 0 { 4 } else { 3 },
        OpMode::GtMul => if i == 0 { 5 } else if i == 1 { 4 } else { 3 },
        OpMode::GtAdd => if i == 2 { 4 } else { 3 },
        OpMode::Equality => 1,
        OpMode::HashGT(n) => 2,
        OpMode::HashFr(n) => 2,
        OpMode::NNAHash(n) => 2,
        OpMode::G1Mul => if i == 0 { 3 } else { 2 },
        OpMode::G2Mul => if i == 0 { 3 } else { 2 },
        OpMode::MillerLoop(n) => if i % 4 == 0 { i + 3 } else { i + 1 },
        OpMode::FinalExp => 1,
        OpMode::Pairing => i + 2,
        OpMode::NNAFieldAddOverFq => 2,
        OpMode::NNAFieldMulOverFq => 2,
        OpMode::NNAG1Mul => if i == 0 { 2 } else { 3 },
        OpMode::NNAFielAddOverF2 => 0,
    };
    assert(i < j < plan.len() && plan[j].operands().contains(x));
}

/// The events of a plan whose calls all succeeded.
pub open spec fn succeeded(plan: Seq<Gadget>) -> Seq<Event> {
    Seq::new(plan.len(), |i: int| Event { call: plan[i], failure: None })
}

/// A run that succeeds appends its whole plan to the record, each call
/// without a failure, and nothing else.
pub proof fn success_appends_the_plan<T>(
    before: Seq<Event>,
    after: Seq<Event>,
    plan: Seq<Gadget>,
    r: Result<T, CircuitError>,
)
    requires
        ran(before, after, plan, r),
        r is Ok,
    ensures
        after == before + succeeded(plan),
{
    assert(after =~= before + succeeded(plan));
}

/// A run that fails appends the calls of its plan up to the one that
/// failed, the earlier ones without a failure and the last with the error
/// that is returned, and nothing else.
pub proof fn failure_stops_the_run<T>(
    before: Seq<Event>,
    after: Seq<Event>,
    plan: Seq<Gadget>,
    r: Result<T, CircuitError>,
)
    requires
        ran(before, after, plan, r),
        r is Err,
    ensures
        r->Err_0 is ConstraintAllocationFailure,
        before.len() < after.len() <= before.len() + plan.len(),
        after == before + succeeded(plan.take(after.len() - before.len() - 1)).push(
            Event { call: plan[after.len() - before.len() - 1], failure: r->Err_0.cause() },
        ),
{
    let k = after.len() - before.len() - 1;
    assert(after =~= before + succeeded(plan.take(k)).push(
        Event { call: plan[k], failure: r->Err_0.cause() },
    ));
}

/// A run fails exactly where a gadget call fails: the error returned is the
/// one that the last call of the run returned, and a run that succeeds made
/// no call that failed.
pub proof fn a_run_fails_where_a_call_fails<T>(
    before: Seq<Event>,
    after: Seq<Event>,
    vars: Seq<Var>,
    plan: Seq<Gadget>,
    r: Result<T, CircuitError>,
)
    requires
        ran(before, after, plan, r),
        agree(after, vars),
    ensures
        r matches Err(e) ==> vars.last() is Failed && e == CircuitError::ConstraintAllocationFailure(
            vars.last()->Failed_0,
        ),
        r is Ok ==> forall|i: int| before.len() <= i < after.len() ==> !(#[trigger] vars[i] is Failed),
{
    if r is Err {
        assert(after[after.len() - 1].failure == failure_in(vars[after.len() - 1]));
    } else {
        assert forall|i: int| before.len() <= i < after.len() implies !(#[trigger] vars[i] is Failed) by {
            assert(after[i].failure == failure_in(vars[i]));
        }
    }
}

/// Gadget calls are functions of the system and their operands: two runs of
/// one plan for the same number of calls, from systems in the same state,
/// leave systems in the same state, with the same variables and the same
/// values read.
pub proof fn equal_runs_end_alike(
    first_before: ConstraintSystem,
    first_after: ConstraintSystem,
    second_before: ConstraintSystem,
    second_after: ConstraintSystem,
    plan: Seq<Gadget>,
)
    requires
        worked(first_before, first_after, plan),
        worked(second_before, second_after, plan),
        first_before.machine() == second_before.machine(),
        first_after.trace().len() - first_before.trace().len() == second_after.trace().len()
            - second_before.trace().len(),
    ensures
        first_after.machine() == second_after.machine(),
{
}

/// The base-field element that the variable made at position `id` holds,
/// where that call is an allocation.
pub open spec fn base_element(plan: Seq<Gadget>, base: nat, id: nat) -> Fq {
    if base <= id < base + plan.len() && plan[id - base] is AllocBase {
        plan[id - base]->AllocBase_0
    } else {
        arbitrary()
    }
}

/// The number that the bits made at position `id` stand for, where that
/// call is the decomposition of a base-field variable: the canonical
/// integer of what the variable holds.
pub open spec fn bits_number(plan: Seq<Gadget>, base: nat, id: nat) -> nat {
    if base <= id < base + plan.len() && plan[id - base] is BaseBits {
        base_value(base_element(plan, base, plan[id - base]->BaseBits_0))
    } else {
        arbitrary()
    }
}

/// The target-group element that the variable made at position `id` holds,
/// where an allocation holds its value, a product the product of what its
/// operands hold, and a power what its base holds raised to the number of
/// its bits.
pub open spec fn gt_value(plan: Seq<Gadget>, base: nat, id: nat) -> GtElement
    decreases id,
{
    if base <= id < base + plan.len() {
        match plan[id - base] {
            Gadget::AllocGt(v) => v,
            Gadget::GtMul(a, b) => if a < id && b < id {
                gt_product(gt_value(plan, base, a), gt_value(plan, base, b))
            } else {
                arbitrary()
            },
            Gadget::GtPow(a, b) => if a < id {
                gt_power(gt_value(plan, base, a), bits_number(plan, base, b))
            } else {
                arbitrary()
            },
            _ => arbitrary(),
        }
    } else {
        arbitrary()
    }
}

/// Every equality that the plan constrains is one between variables that
/// hold the same element.
pub open spec fn equalities_hold(plan: Seq<Gadget>, base: nat) -> bool {
    forall|i: int|
        0 <= i < plan.len() ==> (#[trigger] plan[i] matches Gadget::GtEnforceEqual(a, b) ==> gt_value(
            plan,
            base,
            a,
        ) == gt_value(plan, base, b))
}

/// What a circuit constrains is true of its instance: whichever the
/// operation, every equality that its encoding asks the constraint system
/// to enforce holds of the values that the encoding allocates.
pub proof fn constrained_equalities_hold(w: WitnessBundle, base: nat)
    requires
        w.consistent(),
    ensures
        equalities_hold(w.encoding(base), base),
{
    reveal_with_fuel(gt_value, 3);
    let plan = w.encoding(base);
    assert forall|i: int| 0 <= i < plan.len() implies (#[trigger] plan[i] matches Gadget::GtEnforceEqual(a, b)
        ==> gt_value(plan, base, a) == gt_value(plan, base, b)) by {
        match w.mode {
            OpMode::Mul => {
                assert(gt_value(plan, base, base) == w.ct);
                assert(gt_value(plan, base, base + 1) == w.at);
                assert(gt_value(plan, base, base + 2) == w.bt);
                assert(gt_value(plan, base, base + 3) == gt_product(w.at, w.bt));
            },
            OpMode::GtAdd => {
                assert(gt_value(plan, base, base) == w.at);
                assert(gt_value(plan, base, base + 1) == w.bt);
                assert(gt_value(plan, base, base + 2) == w.ct);
                assert(gt_value(plan, base, base + 3) == gt_product(w.at, w.bt));
            },
            OpMode::GtMul => {
                assert(gt_value(plan, base, base) == w.ct);
                assert(gt_value(plan, base, base + 1) == w.t);
                assert(base_element(plan, base, base + 2) == embedding(w.c));
                assert(bits_number(plan, base, base + 3) == scalar_value(w.c));
                assert(gt_value(plan, base, base + 4) == gt_power(w.t, scalar_value(w.c)));
            },
            _ => {},
        }
    }
}

/// The point of the first source group that was prepared at position `id`:
/// the value of the witness that the preparation works on.
pub open spec fn prepared_g1(plan: Seq<Gadget>, base: nat, id: nat) -> G1Point {
    let made = plan[id - base]->PrepareG1_0;
    plan[made - base]->AllocG1_0
}

/// The point of the second source group that was prepared at position
/// `id`.
pub open spec fn prepared_g2(plan: Seq<Gadget>, base: nat, id: nat) -> G2Point {
    let made = plan[id - base]->PrepareG2_0;
    plan[made - base]->AllocG2_0
}

/// The full pairing and its split into a Miller loop over one pair and a
/// final exponentiation start from the same operands: the one pairing call
/// and the one-pair Miller loop both work on a prepared witness for `ag` and
/// a prepared witness for `bg`.
pub proof fn pairing_and_its_split_take_the_same_points(w: WitnessBundle, base: nat)
    ensures
        ({
            let whole = pairing_plan(w.ag, w.bg, base);
            &&& whole.len() == 5
            &&& whole[4] matches Gadget::Pairing(p, q)
            &&& whole[p - base] is PrepareG1 && prepared_g1(whole, base, p) == w.ag
            &&& whole[q - base] is PrepareG2 && prepared_g2(whole, base, q) == w.bg
        }),
        ({
            let split = miller_plan(w.ag, w.bg, base, 1);
            &&& split.len() == 5
            &&& split[4] matches Gadget::MillerLoop(ps, qs)
            &&& ps.len() == 1 && qs.len() == 1
            &&& split[ps[0] - base] is PrepareG1 && prepared_g1(split, base, ps[0]) == w.ag
            &&& split[qs[0] - base] is PrepareG2 && prepared_g2(split, base, qs[0]) == w.bg
        }),
{
    let split = miller_plan(w.ag, w.bg, base, 1);
    assert(split[4] == Gadget::MillerLoop(miller_left(base, 1), miller_right(base, 1)));
    assert(miller_left(base, 1)[0] == base + 2);
    assert(miller_right(base, 1)[0] == base + 3);
    assert(split[2] == Gadget::PrepareG1((base + 1) as nat));
    assert(split[3] == Gadget::PrepareG2(base));
    assert(split[1] == Gadget::AllocG1(w.ag));
    assert(split[0] == Gadget::AllocG2(w.bg));
}

/// The two laws of encodings hold of the foreign-field circuit as well: its
/// one operation works on the two variables allocated before it.
pub proof fn foreign_circuit_uses_its_operands(c: NNACircuitView, base: nat)
    ensures
        c.encoding(base).len() == 3,
        c.encoding(base)[0].is_allocation(),
        c.encoding(base)[1].is_allocation(),
        c.encoding(base)[2].operands() == set![base, (base + 1) as nat],
{
}

} // verus!
