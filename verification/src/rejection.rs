//! Why a proof was turned down.

use vstd::prelude::*;

verus! {

/// The reason for which a proof was rejected. It serves diagnostics; callers
/// of the boolean entry points never see it.
#[derive(Clone, Copy, Debug, PartialEq, Eq, Structural)]
pub enum Rejection {
    /// The proof is structurally invalid: it lacks public inputs, is the
    /// all-zero pattern, encodes no curve points, or carries more public
    /// inputs than the key has commitment elements for.
    MalformedInput,
    /// No verification key is configured.
    KeyNotConfigured,
    /// An element of the configured key encodes no curve point.
    InvalidKey,
    /// The proof does not bind the expected value, the pairing equation does
    /// not hold, a public input is out of range, or the proof was accepted
    /// before.
    VerificationFailed,
}

} // verus!
