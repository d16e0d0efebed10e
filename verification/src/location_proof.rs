//! Location proofs: their layout and the rules on their public inputs.

use crate::bytes::{all_zero, is_all_zero};
use crate::rejection::Rejection;
use vstd::prelude::*;

verus! {

/// The least grid scale a proof may claim.
pub const MIN_GRID_SCALE: u32 = 1_000_000;

/// The greatest grid scale a proof may claim.
pub const MAX_GRID_SCALE: u32 = 10_000_000;

/// The greatest cell identifier a proof may claim.
pub const MAX_CELL_ID: u32 = 100_000;

/// A proof that its author occupies a cell of the location grid.
///
/// By convention `public_inputs[0]` is the cell identifier and
/// `public_inputs[1]` the grid scale; further entries are auxiliary public
/// signals.
#[derive(Clone, Debug)]
pub struct LocationProof {
    pub proof: [u8; 64],
    pub public_inputs: Vec<u32>,
}

/// The encoding of the G1 element "A" of a proof: the whole buffer.
pub open spec fn point_a_of(proof: Seq<u8>) -> Seq<u8> {
    proof
}

/// The encoding of the G2 element "B" of a proof: the second half of the
/// buffer, padded with zeros to the length of a G2 encoding.
pub open spec fn point_b_of(proof: Seq<u8>) -> Seq<u8> {
    Seq::new(128, |i: int| if i < 32 { proof[32 + i] } else { 0u8 })
}

impl LocationProof {
    /// Whether the proof carries a cell identifier and a grid scale.
    pub open spec fn has_claim(&self) -> bool {
        self.public_inputs@.len() >= 2
    }

    /// Whether the proof claims the cell `expected`.
    pub open spec fn claims(&self, expected: u32) -> bool {
        self.has_claim() && self.public_inputs@[0] == expected
    }

    /// Whether the claimed grid scale and cell identifier are in range.
    pub open spec fn within_bounds(&self) -> bool {
        &&& self.has_claim()
        &&& MIN_GRID_SCALE <= self.public_inputs@[1] <= MAX_GRID_SCALE
        &&& self.public_inputs@[0] <= MAX_CELL_ID
    }

    /// The reason for which the checks that need no key turn the proof down,
    /// or `None` where it passes them: the proof must carry a claim, the
    /// claimed cell must be `expected`, and the proof bytes must not all be
    /// zero. The conditions are examined in this order.
    pub open spec fn precheck_verdict(&self, expected: u32) -> Option<Rejection> {
        if !self.has_claim() {
            Some(Rejection::MalformedInput)
        } else if self.public_inputs@[0] != expected {
            Some(Rejection::VerificationFailed)
        } else if all_zero(self.proof@) {
            Some(Rejection::MalformedInput)
        } else {
            None
        }
    }

    /// Runs the checks that need no key.
    pub fn precheck(&self, expected: u32) -> (res: Result<(), Rejection>)
        ensures
            res == match self.precheck_verdict(expected) {
                Some(reason) => Err::<(), Rejection>(reason),
                None => Ok(()),
            },
    {
        if self.public_inputs.len() < 2 {
            return Err(Rejection::MalformedInput);
        }
        if self.public_inputs[0] != expected {
            return Err(Rejection::VerificationFailed);
        }
        if is_all_zero(&self.proof) {
            return Err(Rejection::MalformedInput);
        }
        Ok(())
    }

    /// Checks the claimed grid scale and cell identifier against their ranges.
    pub fn check_bounds(&self) -> (ok: bool)
        ensures
            ok == self.within_bounds(),
    {
        if self.public_inputs.len() < 2 {
            return false;
        }
        let cell_id = self.public_inputs[0];
        let grid_scale = self.public_inputs[1];
        MIN_GRID_SCALE <= grid_scale && grid_scale <= MAX_GRID_SCALE && cell_id <= MAX_CELL_ID
    }

    /// The bytes of the G1 element "A".
    pub fn point_a(&self) -> (a: [u8; 64])
        ensures
            a@ == point_a_of(self.proof@),
    {
        self.proof
    }

    /// The bytes of the G2 element "B".
    pub fn point_b(&self) -> (b: [u8; 128])
        ensures
            b@ == point_b_of(self.proof@),
    {
        let mut b = [0u8; 128];
        let mut i: usize = 0;
        while i < 32
            invariant
                i <= 32,
                forall|j: int| 0 <= j < i ==> b@[j] == self.proof@[32 + j],
                forall|j: int| i <= j < 128 ==> b@[j] == 0,
            decreases 32 - i,
        {
            b[i] = self.proof[32 + i];
            i = i + 1;
        }
        assert(b@ =~= point_b_of(self.proof@));
        b
    }
}

} // verus!
