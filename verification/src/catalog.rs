//! The closed catalogue of benchmark operations.

use vstd::prelude::*;

verus! {

/// One operation whose constraint cost can be measured.
///
/// `GT` is the target group of the pairing, `G1` and `G2` its two source
/// groups, `Fr` their scalar field and `Fq` the base field over which the
/// constraint system is defined.
#[derive(Debug, Clone)]
#[allow(dead_code)]
pub enum OpMode {
    /// Product of two target-group elements.
    Mul,
    /// A target-group element raised to a scalar.
    GtMul,
    /// The same relation as `Mul`, kept apart so that its cost is recorded
    /// under its own name.
    GtAdd,
    /// A target-group element compared with itself.
    Equality,
    /// Sponge hash of a target-group element, absorbed the given number of
    /// times.
    HashGT(usize),
    /// Sponge hash of a base-field element, absorbed the given number of
    /// times.
    HashFr(usize),
    /// Sponge hash of a scalar held as a foreign field element, absorbed the
    /// given number of times, squeezed as a foreign field element.
    NNAHash(usize),
    /// Scalar multiplication in `G1`.
    G1Mul,
    /// Scalar multiplication in `G2`.
    G2Mul,
    /// Joint Miller loop over the given number of prepared pairs.
    MillerLoop(usize),
    /// Final exponentiation of a target-group element.
    FinalExp,
    /// A full pairing.
    Pairing,
    /// Sum of two scalars held as foreign field elements.
    NNAFieldAddOverFq,
    /// Product of two scalars held as foreign field elements.
    NNAFieldMulOverFq,
    /// Scalar multiplication in `G1` by a scalar held as a foreign field
    /// element.
    NNAG1Mul,
    /// Foreign-field sum across two unrelated fields.  No encoding is
    /// defined for it.
    NNAFielAddOverF2,
}

/// Which foreign-field operation a stand-alone foreign-field circuit
/// performs.
#[derive(Debug, Clone)]
pub enum NNAMode {
    Add,
    Mul,
}

impl OpMode {
    /// Whether the dispatcher has an encoding for this operation.
    pub open spec fn has_encoding(self) -> bool {
        !(self is NNAFielAddOverF2)
    }

    /// The repetition count that the operation carries, if it carries one.
    pub open spec fn repetitions(self) -> Option<usize> {
        match self {
            OpMode::HashGT(n) => Some(n),
            OpMode::HashFr(n) => Some(n),
            OpMode::NNAHash(n) => Some(n),
            OpMode::MillerLoop(n) => Some(n),
            _ => None,
        }
    }

    /// Tells whether the dispatcher has an encoding for this operation.
    pub fn is_supported(&self) -> (r: bool)
        ensures
            r == self.has_encoding(),
    {
        match self {
            OpMode::NNAFielAddOverF2 => false,
            _ => true,
        }
    }

    /// The repetition count of a counted operation, `None` for the others.
    pub fn repetition_count(&self) -> (r: Option<usize>)
        ensures
            r == self.repetitions(),
    {
        match self {
            OpMode::HashGT(n) => Some(*n),
            OpMode::HashFr(n) => Some(*n),
            OpMode::NNAHash(n) => Some(*n),
            OpMode::MillerLoop(n) => Some(*n),
            _ => None,
        }
    }
}

} // verus!
