//! What holds of the verifier whatever the proof, the key and the ledger.
//!
//! Each law is stated over the same specification functions as the contracts
//! of the operations it speaks of, so it applies to what those operations
//! return.

use crate::engine::{
    accepts, batch_outcome, ledger_after, ledger_after_batch, proof_identity, verdict,
    VerifierState,
};
use crate::key::{KeyError, KeyStoreState, VerificationKey};
use crate::ledger::{cutoff_defect, pruned, PruneError};
use crate::bytes::all_zero;
use crate::location_proof::{LocationProof, MAX_CELL_ID, MAX_GRID_SCALE, MIN_GRID_SCALE};
use crate::rejection::Rejection;
use vstd::prelude::*;

verus! {

/// The verdict on a proof is a function of the key, the proof, the expected
/// value and one fact about the ledger: whether it holds the identity of the
/// proof. Two ledgers that agree on that fact give the same verdict.
pub proof fn lemma_verdict_is_determined(
    key: Option<VerificationKey>,
    ledger: Map<Seq<u8>, u64>,
    other: Map<Seq<u8>, u64>,
    proof: LocationProof,
    expected: u32,
)
    requires
        ledger.dom().contains(proof_identity(proof)) == other.dom().contains(
            proof_identity(proof),
        ),
    ensures
        verdict(key, ledger, proof, expected) == verdict(key, other, proof, expected),
        accepts(key, ledger, proof, expected) == accepts(key, other, proof, expected),
{
}

/// A proof that was accepted is rejected when it is verified again, whatever
/// value is expected then, and the second verification changes nothing.
pub proof fn lemma_replay_is_rejected(
    state: VerifierState,
    proof: LocationProof,
    expected: u32,
    height: u64,
    expected_again: u32,
    height_again: u64,
)
    requires
        state.accepts(proof, expected),
    ensures
        !state.after(proof, expected, height).accepts(proof, expected_again),
        state.after(proof, expected, height).after(proof, expected_again, height_again)
            == state.after(proof, expected, height),
{
}

/// An identity that the ledger holds stays there through every verification,
/// with its height, so a proof that was accepted once is never accepted
/// again.
pub proof fn lemma_recorded_identity_stays(
    state: VerifierState,
    id: Seq<u8>,
    proof: LocationProof,
    expected: u32,
    height: u64,
)
    requires
        state.ledger.dom().contains(id),
    ensures
        state.after(proof, expected, height).ledger.dom().contains(id),
        state.after(proof, expected, height).ledger[id] == state.ledger[id],
{
}

/// Without an active key no proof is accepted, and no verification changes
/// the state.
pub proof fn lemma_no_key_no_pass(
    state: VerifierState,
    proof: LocationProof,
    expected: u32,
    height: u64,
)
    requires
        state.keys.active_key() is None,
    ensures
        !state.accepts(proof, expected),
        state.after(proof, expected, height) == state,
        proof.precheck_verdict(expected) is None ==> state.verdict(proof, expected) == Some(
            Rejection::KeyNotConfigured,
        ),
{
}

/// A proof whose grid scale is below `MIN_GRID_SCALE` or above
/// `MAX_GRID_SCALE`, or whose cell identifier is above `MAX_CELL_ID`, is
/// rejected, whatever the key and whether or not the pairing equation holds.
pub proof fn lemma_bounds_are_enforced(state: VerifierState, proof: LocationProof, expected: u32)
    requires
        proof.has_claim(),
        proof.public_inputs@[1] < MIN_GRID_SCALE || proof.public_inputs@[1] > MAX_GRID_SCALE
            || proof.public_inputs@[0] > MAX_CELL_ID,
    ensures
        !state.accepts(proof, expected),
{
}

/// A proof is accepted only for the value that stands first among its public
/// inputs: where another value is expected, it is rejected.
pub proof fn lemma_expected_value_binds(
    state: VerifierState,
    proof: LocationProof,
    claimed: u32,
    expected: u32,
)
    requires
        proof.has_claim(),
        proof.public_inputs@[0] == claimed,
        claimed != expected,
    ensures
        !state.accepts(proof, expected),
        state.verdict(proof, expected) == Some(Rejection::VerificationFailed),
{
}

/// A proof that is accepted carries a claim, binds the expected value, is not
/// the all-zero pattern, is in range, and was not recorded before.
pub proof fn lemma_accepted_proof_is_sound(state: VerifierState, proof: LocationProof, expected: u32)
    requires
        state.accepts(proof, expected),
    ensures
        proof.claims(expected),
        !all_zero(proof.proof@),
        proof.within_bounds(),
        state.keys.active_key() is Some,
        !state.ledger.dom().contains(proof_identity(proof)),
{
}

/// The proofs of a batch leave the ledger as the same proofs would, verified
/// one by one in order: the ledger after `done + 1` proofs is the ledger after
/// `done` proofs and one more verification, and a proof that is rejected
/// leaves the ledger to the next as it found it.
pub proof fn lemma_batch_is_sequential(
    state: VerifierState,
    proofs: Seq<LocationProof>,
    expected: Seq<u32>,
    height: u64,
    done: nat,
)
    requires
        done < proofs.len(),
        proofs.len() == expected.len(),
    ensures
        ledger_after_batch(
            state.keys.active_key(),
            state.ledger,
            proofs,
            expected,
            height,
            done + 1,
        ) == ledger_after(
            state.keys.active_key(),
            ledger_after_batch(
                state.keys.active_key(),
                state.ledger,
                proofs,
                expected,
                height,
                done,
            ),
            proofs[done as int],
            expected[done as int],
            height,
        ),
        !state.batch_outcome(proofs, expected, height, done as int) ==> ledger_after_batch(
            state.keys.active_key(),
            state.ledger,
            proofs,
            expected,
            height,
            done + 1,
        ) == ledger_after_batch(
            state.keys.active_key(),
            state.ledger,
            proofs,
            expected,
            height,
            done,
        ),
{
}

/// What the ledger held before a batch, and what an earlier proof of the
/// batch added to it, is still there after any number of its proofs: a proof
/// that fails undoes nothing.
pub proof fn lemma_batch_keeps_entries(
    state: VerifierState,
    proofs: Seq<LocationProof>,
    expected: Seq<u32>,
    height: u64,
    earlier: nat,
    later: nat,
    id: Seq<u8>,
)
    requires
        earlier <= later,
        ledger_after_batch(
            state.keys.active_key(),
            state.ledger,
            proofs,
            expected,
            height,
            earlier,
        ).dom().contains(id),
    ensures
        ledger_after_batch(
            state.keys.active_key(),
            state.ledger,
            proofs,
            expected,
            height,
            later,
        ).dom().contains(id),
    decreases later,
{
    if earlier < later {
        lemma_batch_keeps_entries(state, proofs, expected, height, earlier, (later - 1) as nat, id);
    }
}

/// In a batch of a proof that is acceptable and a proof that was accepted by
/// an earlier call, the first is accepted and the second rejected, and the
/// batch adds the identity of the first to the ledger and nothing else.
pub proof fn lemma_batch_of_fresh_and_replayed(
    state: VerifierState,
    fresh: LocationProof,
    expected_fresh: u32,
    replayed: LocationProof,
    expected_replayed: u32,
    height: u64,
)
    requires
        state.accepts(fresh, expected_fresh),
        state.ledger.dom().contains(proof_identity(replayed)),
    ensures
        state.batch_outcome(
            seq![fresh, replayed],
            seq![expected_fresh, expected_replayed],
            height,
            0,
        ),
        !state.batch_outcome(
            seq![fresh, replayed],
            seq![expected_fresh, expected_replayed],
            height,
            1,
        ),
        state.after_batch(seq![fresh, replayed], seq![expected_fresh, expected_replayed], height)
            == (VerifierState {
            keys: state.keys,
            ledger: state.ledger.insert(proof_identity(fresh), height),
        }),
{
    let key = state.keys.active_key();
    let proofs = seq![fresh, replayed];
    let expected = seq![expected_fresh, expected_replayed];
    assert(ledger_after_batch(key, state.ledger, proofs, expected, height, 0) == state.ledger);
    reveal_with_fuel(ledger_after_batch, 3);
    assert(ledger_after_batch(key, state.ledger, proofs, expected, height, 1)
        == state.ledger.insert(proof_identity(fresh), height));
    assert(ledger_after_batch(key, state.ledger, proofs, expected, height, 2)
        == state.ledger.insert(proof_identity(fresh), height));
}

/// A key whose `alpha_g1` is the all-zero pattern is refused for that.
pub proof fn lemma_zero_alpha_is_refused(key: VerificationKey)
    requires
        all_zero(key.alpha_g1@),
    ensures
        key.defect() == Some(KeyError::ZeroAlpha),
{
}

/// A key without commitment elements is refused.
pub proof fn lemma_empty_ic_is_refused(key: VerificationKey)
    requires
        key.ic@.len() == 0,
    ensures
        key.defect() is Some,
        !key.well_formed(),
{
}

/// A key is structurally sound exactly where none of its four fixed elements
/// and none of its commitment elements is the all-zero pattern and there is a
/// commitment element; one such element is enough.
pub proof fn lemma_sound_key_is_accepted(key: VerificationKey)
    ensures
        key.well_formed() <==> {
            &&& !all_zero(key.alpha_g1@)
            &&& !all_zero(key.beta_g2@)
            &&& !all_zero(key.gamma_g2@)
            &&& !all_zero(key.delta_g2@)
            &&& key.ic@.len() >= 1
            &&& forall|i: int| 0 <= i < key.ic@.len() ==> !all_zero(#[trigger] key.ic@[i]@)
        },
{
}

/// Once the key store is cleared no proof is accepted, whatever the ledger
/// holds, and a proof that passes the checks that need no key is turned down
/// for the want of a key.
pub proof fn lemma_cleared_store_rejects(
    ledger: Map<Seq<u8>, u64>,
    proof: LocationProof,
    expected: u32,
)
    ensures
        !(VerifierState { keys: KeyStoreState::empty(), ledger }).accepts(proof, expected),
        proof.precheck_verdict(expected) is None ==> (VerifierState {
            keys: KeyStoreState::empty(),
            ledger,
        }).verdict(proof, expected) == Some(Rejection::KeyNotConfigured),
{
}

/// A cutoff for pruning is in order exactly where it is not zero and is below
/// the current height; so zero is refused, and so is the current height
/// itself.
pub proof fn lemma_cutoff_bounds(before_height: u64, current_height: u64)
    ensures
        cutoff_defect(before_height, current_height) is None <==> 0 < before_height
            < current_height,
        cutoff_defect(0, current_height) == Some(PruneError::ZeroCutoff),
        cutoff_defect(current_height, current_height) is Some,
{
}

/// Pruning removes exactly the entries recorded before the cutoff, and keeps
/// the others with their heights.
pub proof fn lemma_pruning_keeps_recent_entries(
    ledger: Map<Seq<u8>, u64>,
    before_height: u64,
    id: Seq<u8>,
)
    ensures
        pruned(ledger, before_height).dom().contains(id) <==> ledger.dom().contains(id)
            && ledger[id] >= before_height,
        pruned(ledger, before_height).dom().contains(id) ==> pruned(ledger, before_height)[id]
            == ledger[id],
{
}

/// Pruning lifts the replay protection of exactly the proofs whose identity
/// was recorded before the cutoff: a proof recorded at the cutoff or later is
/// still rejected, and the verdict on any other proof is what it would be if
/// the proof had never been recorded.
pub proof fn lemma_pruning_and_replay(
    state: VerifierState,
    before_height: u64,
    proof: LocationProof,
    expected: u32,
)
    ensures
        state.ledger.dom().contains(proof_identity(proof)) && state.ledger[proof_identity(proof)]
            >= before_height ==> !(VerifierState {
            keys: state.keys,
            ledger: pruned(state.ledger, before_height),
        }).accepts(proof, expected),
        state.ledger.dom().contains(proof_identity(proof)) && state.ledger[proof_identity(proof)]
            < before_height ==> (VerifierState {
            keys: state.keys,
            ledger: pruned(state.ledger, before_height),
        }).verdict(proof, expected) == (VerifierState {
            keys: state.keys,
            ledger: state.ledger.remove(proof_identity(proof)),
        }).verdict(proof, expected),
        !state.ledger.dom().contains(proof_identity(proof)) ==> (VerifierState {
            keys: state.keys,
            ledger: pruned(state.ledger, before_height),
        }).verdict(proof, expected) == state.verdict(proof, expected),
{
}

} // verus!
