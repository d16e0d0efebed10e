//! The proof verifier: a key store, a replay ledger, and the operations on
//! the two.

use crate::bytes::all_zero;
use crate::digest::{host_sha256, sha256_digest};
use crate::env::ledger_sequence;
use crate::equation::{check_equation, equation_verdict};
use crate::key::{KeyError, KeyStore, KeyStoreState, VerificationKey};
use crate::ledger::{cutoff_defect, pruned, PruneError, ReplayLedger};
use crate::location_proof::LocationProof;
use crate::rejection::Rejection;
use soroban_sdk::Env;
use vstd::prelude::*;

verus! {

/// The greatest number of proofs in one batch.
pub const MAX_BATCH_SIZE: usize = 100;

/// The identity of a proof in the replay ledger: the SHA-256 digest of its
/// bytes.
pub open spec fn proof_identity(proof: LocationProof) -> Seq<u8> {
    sha256_digest(proof.proof@)
}

/// Computes the identity of a proof in the replay ledger.
pub fn compute_proof_id(env: &Env, proof: &LocationProof) -> (id: [u8; 32])
    ensures
        id@ == proof_identity(*proof),
{
    host_sha256(env, proof.proof.as_slice())
}

/// The reason for which a proof that satisfies the pairing equation is still
/// turned down, or `None` where it is admitted: its public inputs must be in
/// range, and its identity must not be recorded. The conditions are examined
/// in this order.
pub open spec fn admission_verdict(ledger: Map<Seq<u8>, u64>, proof: LocationProof) -> Option<
    Rejection,
> {
    if !proof.within_bounds() {
        Some(Rejection::VerificationFailed)
    } else if ledger.dom().contains(proof_identity(proof)) {
        Some(Rejection::VerificationFailed)
    } else {
        None
    }
}

/// The reason for which the verifier turns a proof down, or `None` where it
/// accepts the proof: the checks that need no key come first, then the key
/// must be there, then the pairing equation must hold, and last the proof
/// must be admitted to the ledger.
pub open spec fn verdict(
    key: Option<VerificationKey>,
    ledger: Map<Seq<u8>, u64>,
    proof: LocationProof,
    expected: u32,
) -> Option<Rejection> {
    if proof.precheck_verdict(expected) is Some {
        proof.precheck_verdict(expected)
    } else if key is None {
        Some(Rejection::KeyNotConfigured)
    } else if equation_verdict(key->0, proof) is Some {
        equation_verdict(key->0, proof)
    } else {
        admission_verdict(ledger, proof)
    }
}

/// Whether the verifier accepts the proof.
pub open spec fn accepts(
    key: Option<VerificationKey>,
    ledger: Map<Seq<u8>, u64>,
    proof: LocationProof,
    expected: u32,
) -> bool {
    verdict(key, ledger, proof, expected) is None
}

/// The ledger after a verification at `height`: the identity of an accepted
/// proof is recorded, and a rejected proof leaves no trace.
pub open spec fn ledger_after(
    key: Option<VerificationKey>,
    ledger: Map<Seq<u8>, u64>,
    proof: LocationProof,
    expected: u32,
    height: u64,
) -> Map<Seq<u8>, u64> {
    if accepts(key, ledger, proof, expected) {
        ledger.insert(proof_identity(proof), height)
    } else {
        ledger
    }
}

/// Admits a proof that satisfies the pairing equation: checks its public
/// inputs against their ranges and its identity against the ledger, and
/// records the identity at `height`. A proof that is turned down leaves the
/// ledger as it was.
pub fn grant_admission(
    env: &Env,
    ledger: &mut ReplayLedger,
    proof: &LocationProof,
    height: u64,
) -> (res: Result<[u8; 32], Rejection>)
    ensures
        match admission_verdict(old(ledger)@, *proof) {
            Some(reason) => res == Err::<[u8; 32], Rejection>(reason) && *final(ledger) == *old(
                ledger,
            ),
            None => {
                &&& res matches Ok(id)
                &&& id@ == proof_identity(*proof)
                &&& final(ledger)@ == old(ledger)@.insert(proof_identity(*proof), height)
            },
        },
{
    if !proof.check_bounds() {
        return Err(Rejection::VerificationFailed);
    }
    let id = compute_proof_id(env, proof);
    match ledger.record(&id, height) {
        Ok(()) => Ok(id),
        Err(_) => Err(Rejection::VerificationFailed),
    }
}

/// Why a batch was refused as a whole.
#[derive(Clone, Copy, Debug, PartialEq, Eq, Structural)]
pub enum BatchError {
    /// There are not as many expected values as proofs.
    LengthMismatch,
    /// There are more than `MAX_BATCH_SIZE` proofs.
    SizeExceeded,
}

/// Why a batch of `proofs` proofs and `expected` expected values is refused,
/// or `None` where it is in order. The conditions are examined in this order.
pub open spec fn batch_defect(proofs: nat, expected: nat) -> Option<BatchError> {
    if proofs != expected {
        Some(BatchError::LengthMismatch)
    } else if proofs > MAX_BATCH_SIZE {
        Some(BatchError::SizeExceeded)
    } else {
        None
    }
}

/// The ledger after the first `done` proofs of a batch were verified in
/// order at `height`.
pub open spec fn ledger_after_batch(
    key: Option<VerificationKey>,
    ledger: Map<Seq<u8>, u64>,
    proofs: Seq<LocationProof>,
    expected: Seq<u32>,
    height: u64,
    done: nat,
) -> Map<Seq<u8>, u64>
    decreases done,
{
    if done == 0 {
        ledger
    } else {
        ledger_after(
            key,
            ledger_after_batch(key, ledger, proofs, expected, height, (done - 1) as nat),
            proofs[done - 1],
            expected[done - 1],
            height,
        )
    }
}

/// Whether proof `i` of a batch is accepted: it is verified against the
/// ledger that the proofs before it left.
pub open spec fn batch_outcome(
    key: Option<VerificationKey>,
    ledger: Map<Seq<u8>, u64>,
    proofs: Seq<LocationProof>,
    expected: Seq<u32>,
    height: u64,
    i: int,
) -> bool {
    accepts(
        key,
        ledger_after_batch(key, ledger, proofs, expected, height, i as nat),
        proofs[i],
        expected[i],
    )
}

/// What a verifier holds.
pub struct VerifierState {
    /// The key store.
    pub keys: KeyStoreState,
    /// The replay ledger: the height at which each identity was recorded.
    pub ledger: Map<Seq<u8>, u64>,
}

/// The verifier of location proofs.
pub struct ZkVerifier {
    keys: KeyStore,
    ledger: ReplayLedger,
}

impl View for ZkVerifier {
    type V = VerifierState;

    closed spec fn view(&self) -> VerifierState {
        VerifierState { keys: self.keys@, ledger: self.ledger@ }
    }
}

impl VerifierState {
    /// Whether the verifier in this state accepts the proof.
    pub open spec fn accepts(&self, proof: LocationProof, expected: u32) -> bool {
        accepts(self.keys.active_key(), self.ledger, proof, expected)
    }

    /// The reason for which the verifier in this state turns the proof down.
    pub open spec fn verdict(&self, proof: LocationProof, expected: u32) -> Option<Rejection> {
        verdict(self.keys.active_key(), self.ledger, proof, expected)
    }

    /// The state after a batch was verified at `height`.
    pub open spec fn after_batch(
        &self,
        proofs: Seq<LocationProof>,
        expected: Seq<u32>,
        height: u64,
    ) -> VerifierState {
        VerifierState {
            keys: self.keys,
            ledger: ledger_after_batch(
                self.keys.active_key(),
                self.ledger,
                proofs,
                expected,
                height,
                proofs.len(),
            ),
        }
    }

    /// Whether proof `i` of a batch is accepted.
    pub open spec fn batch_outcome(
        &self,
        proofs: Seq<LocationProof>,
        expected: Seq<u32>,
        height: u64,
        i: int,
    ) -> bool {
        batch_outcome(self.keys.active_key(), self.ledger, proofs, expected, height, i)
    }

    /// The state after a verification at `height`.
    pub open spec fn after(
        &self,
        proof: LocationProof,
        expected: u32,
        height: u64,
    ) -> VerifierState {
        VerifierState {
            keys: self.keys,
            ledger: ledger_after(self.keys.active_key(), self.ledger, proof, expected, height),
        }
    }
}

impl ZkVerifier {
    /// A verifier without a key and with an empty ledger.
    pub fn init(env: &Env) -> (verifier: ZkVerifier)
        ensures
            verifier@ == (VerifierState {
                keys: KeyStoreState::empty(),
                ledger: Map::<Seq<u8>, u64>::empty(),
            }),
    {
        ZkVerifier { keys: KeyStore::new(), ledger: ReplayLedger::new(env) }
    }

    /// A verifier over a key store and a ledger.
    pub fn from_parts(keys: KeyStore, ledger: ReplayLedger) -> (verifier: ZkVerifier)
        ensures
            verifier@ == (VerifierState { keys: keys@, ledger: ledger@ }),
    {
        ZkVerifier { keys, ledger }
    }

    /// The key store.
    pub fn key_store(&self) -> (keys: &KeyStore)
        ensures
            keys@ == self@.keys,
    {
        &self.keys
    }

    /// The replay ledger.
    pub fn replay_ledger(&self) -> (ledger: &ReplayLedger)
        ensures
            ledger@ == self@.ledger,
    {
        &self.ledger
    }

    /// Verifies a proof at the ledger height `height`, and says why where it
    /// turns the proof down. An accepted proof has its identity recorded at
    /// `height`, and the identity is returned; a rejected proof leaves the
    /// verifier as it was.
    pub fn try_verify_at(
        &mut self,
        env: &Env,
        proof: &LocationProof,
        expected_cell_id: u32,
        height: u64,
    ) -> (res: Result<[u8; 32], Rejection>)
        ensures
            match old(self)@.verdict(*proof, expected_cell_id) {
                Some(reason) => res == Err::<[u8; 32], Rejection>(reason) && *final(self) == *old(
                    self,
                ),
                None => res matches Ok(id) && id@ == proof_identity(*proof),
            },
            final(self)@ == old(self)@.after(*proof, expected_cell_id, height),
    {
        match proof.precheck(expected_cell_id) {
            Ok(()) => {},
            Err(reason) => {
                return Err(reason);
            },
        }
        match self.keys.active_key() {
            Some(key) => {
                match check_equation(env, key, proof) {
                    Ok(()) => {},
                    Err(reason) => {
                        return Err(reason);
                    },
                }
            },
            None => {
                return Err(Rejection::KeyNotConfigured);
            },
        }
        grant_admission(env, &mut self.ledger, proof, height)
    }

    /// Verifies a proof at the ledger height `height`. An accepted proof has
    /// its identity recorded at `height`; a rejected proof leaves the
    /// verifier as it was.
    pub fn verify_at(
        &mut self,
        env: &Env,
        proof: &LocationProof,
        expected_cell_id: u32,
        height: u64,
    ) -> (accepted: bool)
        ensures
            accepted == old(self)@.accepts(*proof, expected_cell_id),
            !accepted ==> *final(self) == *old(self),
            final(self)@ == old(self)@.after(*proof, expected_cell_id, height),
    {
        self.try_verify_at(env, proof, expected_cell_id, height).is_ok()
    }

    /// Verifies a proof at the current ledger height of the environment.
    pub fn verify(&mut self, env: &Env, proof: &LocationProof, expected_cell_id: u32) -> (accepted:
        bool)
        ensures
            accepted == old(self)@.accepts(*proof, expected_cell_id),
            !accepted ==> *final(self) == *old(self),
            exists|height: u64|
                final(self)@ == #[trigger] old(self)@.after(*proof, expected_cell_id, height),
    {
        let height = ledger_sequence(env);
        self.verify_at(env, proof, expected_cell_id, height)
    }

    /// Verifies a batch of proofs in order at the ledger height `height`, each
    /// against the expected value at its index. A batch with a different
    /// number of expected values, or with more than `MAX_BATCH_SIZE` proofs,
    /// is refused as a whole. Otherwise every proof is verified as by
    /// `verify_at`, whatever became of the others, and the answers are
    /// returned in order.
    pub fn verify_batch_at(
        &mut self,
        env: &Env,
        proofs: &Vec<LocationProof>,
        expected_cell_ids: &Vec<u32>,
        height: u64,
    ) -> (res: Result<Vec<bool>, BatchError>)
        ensures
            match batch_defect(proofs@.len(), expected_cell_ids@.len()) {
                Some(e) => res == Err::<Vec<bool>, BatchError>(e) && *final(self) == *old(self),
                None => {
                    &&& res matches Ok(results)
                    &&& results@.len() == proofs@.len()
                    &&& forall|i: int|
                        0 <= i < proofs@.len() ==> #[trigger] results@[i] == old(
                            self,
                        )@.batch_outcome(proofs@, expected_cell_ids@, height, i)
                    &&& final(self)@ == old(self)@.after_batch(proofs@, expected_cell_ids@, height)
                },
            },
    {
        if proofs.len() != expected_cell_ids.len() {
            return Err(BatchError::LengthMismatch);
        }
        if proofs.len() > MAX_BATCH_SIZE {
            return Err(BatchError::SizeExceeded);
        }
        let ghost start = self@;
        let mut results: Vec<bool> = Vec::new();
        let mut i: usize = 0;
        while i < proofs.len()
            invariant
                i <= proofs@.len(),
                proofs@.len() == expected_cell_ids@.len(),
                results@.len() == i,
                forall|j: int|
                    0 <= j < i ==> #[trigger] results@[j] == start.batch_outcome(
                        proofs@,
                        expected_cell_ids@,
                        height,
                        j,
                    ),
                self@.keys == start.keys,
                self@.ledger == ledger_after_batch(
                    start.keys.active_key(),
                    start.ledger,
                    proofs@,
                    expected_cell_ids@,
                    height,
                    i as nat,
                ),
            decreases proofs@.len() - i,
        {
            let accepted = self.verify_at(env, &proofs[i], expected_cell_ids[i], height);
            results.push(accepted);
            i = i + 1;
        }
        Ok(results)
    }

    /// Verifies a batch of proofs at the current ledger height of the
    /// environment.
    pub fn verify_batch(
        &mut self,
        env: &Env,
        proofs: &Vec<LocationProof>,
        expected_cell_ids: &Vec<u32>,
    ) -> (res: Result<Vec<bool>, BatchError>)
        ensures
            match batch_defect(proofs@.len(), expected_cell_ids@.len()) {
                Some(e) => res == Err::<Vec<bool>, BatchError>(e) && *final(self) == *old(self),
                None => exists|height: u64|
                    {
                        &&& res matches Ok(results)
                        &&& results@.len() == proofs@.len()
                        &&& forall|i: int|
                            0 <= i < proofs@.len() ==> #[trigger] results@[i] == old(
                                self,
                            )@.batch_outcome(proofs@, expected_cell_ids@, height, i)
                        &&& final(self)@ == #[trigger] old(self)@.after_batch(
                            proofs@,
                            expected_cell_ids@,
                            height,
                        )
                    },
            },
    {
        let height = ledger_sequence(env);
        self.verify_batch_at(env, proofs, expected_cell_ids, height)
    }

    /// Installs `vk` as the active key, in place of any earlier one, and
    /// publishes the SHA-256 digest of its `alpha_g1`. A key that is not
    /// structurally sound is refused with its first defect, and the verifier
    /// stays as it was.
    pub fn set_verification_key(&mut self, env: &Env, vk: VerificationKey) -> (res: Result<
        (),
        KeyError,
    >)
        ensures
            match vk.defect() {
                Some(e) => res == Err::<(), KeyError>(e) && *final(self) == *old(self),
                None => res is Ok && final(self)@ == (VerifierState {
                    keys: KeyStoreState {
                        key: Some(vk),
                        digest: Some(vk.content_digest()),
                        configured: true,
                    },
                    ledger: old(self)@.ledger,
                }),
            },
    {
        self.keys.install(env, vk)
    }

    /// Publishes `vk_hash` as the digest of the key and sets the flag that
    /// says that a key was configured. The all-zero digest is refused, and
    /// the verifier stays as it was.
    pub fn set_verification_key_hash(&mut self, vk_hash: [u8; 32]) -> (res: Result<(), KeyError>)
        ensures
            all_zero(vk_hash@) ==> res == Err::<(), KeyError>(KeyError::ZeroHash) && *final(self)
                == *old(self),
            !all_zero(vk_hash@) ==> res is Ok && final(self)@ == (VerifierState {
                keys: KeyStoreState {
                    key: old(self)@.keys.key,
                    digest: Some(vk_hash@),
                    configured: true,
                },
                ledger: old(self)@.ledger,
            }),
    {
        self.keys.set_digest(vk_hash)
    }

    /// The stored key, which is structurally sound.
    pub fn get_verification_key(&self) -> (key: Option<&VerificationKey>)
        ensures
            match key {
                Some(k) => self@.keys.key == Some(*k) && k.well_formed(),
                None => self@.keys.key is None,
            },
    {
        self.keys.get()
    }

    /// The published digest of the key.
    pub fn get_verification_key_hash(&self) -> (digest: Option<[u8; 32]>)
        ensures
            match digest {
                Some(d) => self@.keys.digest == Some(d@),
                None => self@.keys.digest is None,
            },
    {
        self.keys.digest()
    }

    /// Removes the key and its digest. The ledger stays as it was.
    pub fn clear_verification_key(&mut self)
        ensures
            final(self)@ == (VerifierState {
                keys: KeyStoreState::empty(),
                ledger: old(self)@.ledger,
            }),
    {
        self.keys.clear()
    }

    /// Removes the ledger entries recorded before `before_ledger`, at the
    /// ledger height `current_ledger`. The cutoff must not be zero and must be
    /// below the current height; otherwise it is refused, and the verifier
    /// stays as it was.
    pub fn clean_nonces_at(&mut self, before_ledger: u64, current_ledger: u64) -> (res: Result<
        (),
        PruneError,
    >)
        ensures
            match cutoff_defect(before_ledger, current_ledger) {
                Some(e) => res == Err::<(), PruneError>(e) && *final(self) == *old(self),
                None => res is Ok && final(self)@ == (VerifierState {
                    keys: old(self)@.keys,
                    ledger: pruned(old(self)@.ledger, before_ledger),
                }),
            },
    {
        self.ledger.prune(before_ledger, current_ledger)
    }

    /// Removes the ledger entries recorded before `before_ledger`, at the
    /// current ledger height of the environment. A cutoff of zero is always
    /// refused; any other cutoff is refused where it is not below that height.
    pub fn clean_nonces(&mut self, env: &Env, before_ledger: u64) -> (res: Result<(), PruneError>)
        ensures
            before_ledger == 0 ==> res == Err::<(), PruneError>(PruneError::ZeroCutoff),
            exists|current_ledger: u64|
                match #[trigger] cutoff_defect(before_ledger, current_ledger) {
                    Some(e) => res == Err::<(), PruneError>(e) && *final(self) == *old(self),
                    None => res is Ok && final(self)@ == (VerifierState {
                        keys: old(self)@.keys,
                        ledger: pruned(old(self)@.ledger, before_ledger),
                    }),
                },
    {
        let current_ledger = ledger_sequence(env);
        self.clean_nonces_at(before_ledger, current_ledger)
    }
}

} // verus!
