//! The circuit of a second curve family.  No operation has an encoding over
//! it yet.

use vstd::prelude::*;

use crate::catalog::OpMode;
use crate::error::CircuitError;

verus! {

/// An operation to encode over the second curve family.
pub struct Circuit {
    mode: OpMode,
}

impl Circuit {
    /// The operation that the circuit was made for.
    pub closed spec fn mode_spec(&self) -> OpMode {
        self.mode
    }

    /// A circuit for the operation `mode`.
    pub fn new(mode: OpMode) -> (r: Circuit)
        ensures
            r.mode_spec() == mode,
    {
        Circuit { mode }
    }

    /// The operation that the circuit was made for.
    pub fn mode(&self) -> (r: &OpMode)
        ensures
            *r == self.mode_spec(),
    {
        &self.mode
    }

    /// Refuses the operation, whichever it is, and leaves the constraint
    /// system as it was.
    pub fn generate_constraints<S>(self, cs: &mut S) -> (r: Result<(), CircuitError>)
        ensures
            r == Err::<(), CircuitError>(CircuitError::UnsupportedOperation),
            *final(cs) == *old(cs),
    {
        Err(CircuitError::UnsupportedOperation)
    }
}

} // verus!
