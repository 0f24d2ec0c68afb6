//! What can go wrong in one benchmark iteration.

use vstd::prelude::*;

use ark_relations::r1cs::SynthesisError;

verus! {

#[verifier::external_type_specification]
#[verifier::external_body]
pub struct ExSynthesisError(SynthesisError);

/// The failures of sampling and of circuit construction.
#[derive(Debug, Clone, Copy, PartialEq, Eq)]
pub enum CircuitError {
    /// The sampled instance did not pass its algebraic cross-check.  The
    /// arithmetic library is at fault; the run should be given up.
    SampleInconsistency,
    /// The operation has no encoding.
    UnsupportedOperation,
    /// The constraint system or a gadget refused a call.  The error is the
    /// one that the call returned.
    ConstraintAllocationFailure(SynthesisError),
}

impl CircuitError {
    /// The gadget library's error that this failure carries, if it carries
    /// one.
    pub open spec fn cause(self) -> Option<SynthesisError> {
        match self {
            CircuitError::ConstraintAllocationFailure(e) => Some(e),
            _ => None,
        }
    }
}

} // verus!
