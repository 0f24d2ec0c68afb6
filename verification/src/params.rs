//! The configuration of the Poseidon sponge.
//!
//! The sponge of `ark_sponge` works on a state of three field elements (a
//! rate of two and a capacity of one) and reads its round constants and its
//! matrix by index.  A configuration is therefore kept only if its tables
//! have the shape that those reads need.

use vstd::prelude::*;

use ark_bls12_377::Fq;

verus! {

/// The number of field elements in the sponge's state.
pub const STATE_WIDTH: usize = 3;

/// What a sponge configuration holds, as mathematics.
pub struct HashParametersView {
    /// The number of rounds in which every state element passes the S-box.
    pub full_rounds: nat,
    /// The number of rounds in which one state element passes the S-box.
    pub partial_rounds: nat,
    /// The exponent of the S-box.
    pub alpha: nat,
    /// The matrix applied at the end of each round, row by row.
    pub mds: Seq<Seq<Fq>>,
    /// The constants added at the start of each round, round by round.
    pub ark: Seq<Seq<Fq>>,
}

impl HashParametersView {
    /// The configuration with the given parts.
    pub open spec fn of(
        full_rounds: u32,
        partial_rounds: u32,
        alpha: u64,
        mds: Seq<Vec<Fq>>,
        ark: Seq<Vec<Fq>>,
    ) -> HashParametersView {
        HashParametersView {
            full_rounds: full_rounds as nat,
            partial_rounds: partial_rounds as nat,
            alpha: alpha as nat,
            mds: rows_of(mds),
            ark: rows_of(ark),
        }
    }

    /// There is one row of constants for each round, each row and the
    /// matrix fit the state, and the round count fits the sponge's counter.
    pub open spec fn well_formed(self) -> bool {
        &&& self.full_rounds + self.partial_rounds <= u32::MAX
        &&& self.ark.len() == self.full_rounds + self.partial_rounds
        &&& forall|i: int| 0 <= i < self.ark.len() ==> (#[trigger] self.ark[i]).len() == STATE_WIDTH
        &&& self.mds.len() == STATE_WIDTH
        &&& forall|i: int| 0 <= i < self.mds.len() ==> (#[trigger] self.mds[i]).len() == STATE_WIDTH
    }
}

/// The rows of a table, each as a sequence.
pub open spec fn rows_of(table: Seq<Vec<Fq>>) -> Seq<Seq<Fq>> {
    Seq::new(table.len(), |i: int| table[i]@)
}

/// A configuration of the Poseidon sponge over the base field.  Every value
/// of this type is well formed.
pub struct HashParameters {
    pub(crate) full_rounds: u32,
    pub(crate) partial_rounds: u32,
    pub(crate) alpha: u64,
    pub(crate) mds: Vec<Vec<Fq>>,
    pub(crate) ark: Vec<Vec<Fq>>,
}

impl View for HashParameters {
    type V = HashParametersView;

    closed spec fn view(&self) -> HashParametersView {
        HashParametersView::of(self.full_rounds, self.partial_rounds, self.alpha, self.mds@, self.ark@)
    }
}

/// Tells whether every row of `table` has `width` entries.
fn rows_have_width(table: &Vec<Vec<Fq>>, width: usize) -> (r: bool)
    ensures
        r == forall|i: int| 0 <= i < table@.len() ==> (#[trigger] rows_of(table@)[i]).len() == width,
{
    let mut i: usize = 0;
    while i < table.len()
        invariant
            i <= table@.len(),
            forall|j: int| 0 <= j < i ==> (#[trigger] rows_of(table@)[j]).len() == width,
        decreases table@.len() - i,
    {
        if table[i].len() != width {
            assert(rows_of(table@)[i as int].len() != width);
            return false;
        }
        i = i + 1;
    }
    true
}

impl HashParameters {
    #[verifier::type_invariant]
    pub(crate) open spec fn inv(self) -> bool {
        self@.well_formed()
    }

    /// Makes a configuration from its parts, or `None` where the parts do
    /// not have the shape that the sponge needs.
    pub fn new(
        full_rounds: u32,
        partial_rounds: u32,
        alpha: u64,
        mds: Vec<Vec<Fq>>,
        ark: Vec<Vec<Fq>>,
    ) -> (r: Option<HashParameters>)
        ensures
            r is Some <==> HashParametersView::of(full_rounds, partial_rounds, alpha, mds@, ark@).well_formed(),
            r matches Some(p) ==> p@ == HashParametersView::of(full_rounds, partial_rounds, alpha, mds@, ark@),
    {
        let rounds: u64 = full_rounds as u64 + partial_rounds as u64;
        if rounds > u32::MAX as u64 {
            return None;
        }
        if ark.len() as u64 != rounds {
            return None;
        }
        if mds.len() != STATE_WIDTH {
            return None;
        }
        if !rows_have_width(&ark, STATE_WIDTH) {
            return None;
        }
        if !rows_have_width(&mds, STATE_WIDTH) {
            return None;
        }
        Some(HashParameters { full_rounds, partial_rounds, alpha, mds, ark })
    }

    /// The number of full rounds.
    pub fn full_rounds(&self) -> (r: u32)
        ensures
            r == self@.full_rounds,
    {
        self.full_rounds
    }

    /// The number of partial rounds.
    pub fn partial_rounds(&self) -> (r: u32)
        ensures
            r == self@.partial_rounds,
    {
        self.partial_rounds
    }

    /// The matrix applied at the end of each round, row by row.
    pub fn mds(&self) -> (r: &Vec<Vec<Fq>>)
        ensures
            rows_of(r@) == self@.mds,
    {
        &self.mds
    }

    /// The constants added at the start of each round, round by round.
    pub fn ark(&self) -> (r: &Vec<Vec<Fq>>)
        ensures
            rows_of(r@) == self@.ark,
    {
        &self.ark
    }

    /// The exponent of the S-box.
    pub fn alpha(&self) -> (r: u64)
        ensures
            r == self@.alpha,
    {
        self.alpha
    }
}

} // verus!
