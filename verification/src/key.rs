//! The verification key and the store that holds the active one.

use crate::bytes::{all_zero, is_all_zero};
use crate::digest::{host_sha256, sha256_digest};
use soroban_sdk::Env;
use vstd::prelude::*;

verus! {

/// A Groth16-style verification key, every element in its byte encoding.
#[derive(Clone, Debug)]
pub struct VerificationKey {
    pub alpha_g1: [u8; 64],
    pub beta_g2: [u8; 128],
    pub gamma_g2: [u8; 128],
    pub delta_g2: [u8; 128],
    pub ic: Vec<[u8; 64]>,
}

/// Why a key, or the digest of one, was refused.
#[derive(Clone, Copy, Debug, PartialEq, Eq, Structural)]
pub enum KeyError {
    /// `alpha_g1` is the all-zero pattern.
    ZeroAlpha,
    /// `beta_g2` is the all-zero pattern.
    ZeroBeta,
    /// `gamma_g2` is the all-zero pattern.
    ZeroGamma,
    /// `delta_g2` is the all-zero pattern.
    ZeroDelta,
    /// `ic` holds no element.
    EmptyIc,
    /// An element of `ic` is the all-zero pattern.
    ZeroIcPoint,
    /// The digest is the all-zero pattern.
    ZeroHash,
}

impl VerificationKey {
    /// Whether some element of `ic` is the all-zero pattern.
    pub open spec fn has_zero_ic_point(&self) -> bool {
        exists|i: int| 0 <= i < self.ic@.len() && all_zero(#[trigger] self.ic@[i]@)
    }

    /// The first structural defect of the key, in the order in which the
    /// fields are examined, or `None` where it has none.
    pub open spec fn defect(&self) -> Option<KeyError> {
        if all_zero(self.alpha_g1@) {
            Some(KeyError::ZeroAlpha)
        } else if all_zero(self.beta_g2@) {
            Some(KeyError::ZeroBeta)
        } else if all_zero(self.gamma_g2@) {
            Some(KeyError::ZeroGamma)
        } else if all_zero(self.delta_g2@) {
            Some(KeyError::ZeroDelta)
        } else if self.ic@.len() == 0 {
            Some(KeyError::EmptyIc)
        } else if self.has_zero_ic_point() {
            Some(KeyError::ZeroIcPoint)
        } else {
            None
        }
    }

    /// Whether the key is structurally sound: no element is the all-zero
    /// pattern, and `ic` is not empty.
    pub open spec fn well_formed(&self) -> bool {
        self.defect() is None
    }

    /// The digest under which the key is published for auditing: the SHA-256
    /// digest of its `alpha_g1`.
    pub open spec fn content_digest(&self) -> Seq<u8> {
        sha256_digest(self.alpha_g1@)
    }

    /// Computes the digest under which the key is published for auditing.
    pub fn compute_content_digest(&self, env: &Env) -> (digest: [u8; 32])
        ensures
            digest@ == self.content_digest(),
    {
        host_sha256(env, self.alpha_g1.as_slice())
    }

    /// Examines the structure of the key and reports its first defect.
    #[verifier::loop_isolation(false)]
    pub fn validate(&self) -> (res: Result<(), KeyError>)
        ensures
            res == match self.defect() {
                Some(e) => Err::<(), KeyError>(e),
                None => Ok(()),
            },
    {
        if is_all_zero(&self.alpha_g1) {
            return Err(KeyError::ZeroAlpha);
        }
        if is_all_zero(&self.beta_g2) {
            return Err(KeyError::ZeroBeta);
        }
        if is_all_zero(&self.gamma_g2) {
            return Err(KeyError::ZeroGamma);
        }
        if is_all_zero(&self.delta_g2) {
            return Err(KeyError::ZeroDelta);
        }
        if self.ic.len() == 0 {
            return Err(KeyError::EmptyIc);
        }
        let mut i: usize = 0;
        while i < self.ic.len()
            invariant
                i <= self.ic.len(),
                forall|j: int| 0 <= j < i ==> !all_zero(#[trigger] self.ic@[j]@),
            decreases self.ic.len() - i,
        {
            if is_all_zero(&self.ic[i]) {
                assert(all_zero(self.ic@[i as int]@));
                return Err(KeyError::ZeroIcPoint);
            }
            i = i + 1;
        }
        Ok(())
    }
}

/// What a key store holds.
pub struct KeyStoreState {
    /// The stored key.
    pub key: Option<VerificationKey>,
    /// The digest published for auditing.
    pub digest: Option<Seq<u8>>,
    /// The flag that says that a key was configured.
    pub configured: bool,
}

/// The store of the active verification key, with the digest published for
/// it and the flag that says that a key was configured.
pub struct KeyStore {
    key: Option<VerificationKey>,
    digest: Option<[u8; 32]>,
    configured: bool,
}

impl View for KeyStore {
    type V = KeyStoreState;

    closed spec fn view(&self) -> KeyStoreState {
        KeyStoreState {
            key: self.key,
            digest: match self.digest {
                Some(d) => Some(d@),
                None => None,
            },
            configured: self.configured,
        }
    }
}

impl KeyStoreState {
    /// The state of a store that was never written, or was cleared.
    pub open spec fn empty() -> KeyStoreState {
        KeyStoreState { key: None, digest: None, configured: false }
    }

    /// The key that verification uses: the stored one, while the flag is set.
    pub open spec fn active_key(&self) -> Option<VerificationKey> {
        if self.configured {
            self.key
        } else {
            None
        }
    }
}

impl KeyStore {
    /// A key held in the store is structurally sound.
    #[verifier::type_invariant]
    spec fn holds_sound_key(self) -> bool {
        self.key matches Some(k) ==> k.well_formed()
    }

    /// A store without a key.
    pub fn new() -> (store: KeyStore)
        ensures
            store@ == KeyStoreState::empty(),
    {
        KeyStore { key: None, digest: None, configured: false }
    }

    /// Rebuilds a store from what was persisted of it. A key that is not
    /// structurally sound is refused with its first defect.
    pub fn restore(
        key: Option<VerificationKey>,
        digest: Option<[u8; 32]>,
        configured: bool,
    ) -> (res: Result<KeyStore, KeyError>)
        ensures
            match res {
                Ok(store) => {
                    &&& key matches Some(k) ==> k.well_formed()
                    &&& store@.key == key
                    &&& store@.configured == configured
                    &&& digest matches Some(d) ==> store@.digest == Some(d@)
                    &&& digest is None ==> store@.digest is None
                },
                Err(e) => key matches Some(k) && k.defect() == Some(e),
            },
    {
        match &key {
            Some(k) => {
                match k.validate() {
                    Ok(()) => {},
                    Err(e) => {
                        return Err(e);
                    },
                }
            },
            None => {},
        }
        Ok(KeyStore { key, digest, configured })
    }

    /// Installs `candidate` as the active key, in place of any earlier one,
    /// and publishes the SHA-256 digest of its `alpha_g1`. A candidate that
    /// is not structurally sound is refused with its first defect, and the
    /// store stays as it was.
    pub fn install(&mut self, env: &Env, candidate: VerificationKey) -> (res: Result<(), KeyError>)
        ensures
            match candidate.defect() {
                Some(e) => res == Err::<(), KeyError>(e) && *final(self) == *old(self),
                None => res is Ok && final(self)@ == (KeyStoreState {
                    key: Some(candidate),
                    digest: Some(candidate.content_digest()),
                    configured: true,
                }),
            },
    {
        match candidate.validate() {
            Ok(()) => {},
            Err(e) => {
                return Err(e);
            },
        }
        let digest = candidate.compute_content_digest(env);
        self.key = Some(candidate);
        self.digest = Some(digest);
        self.configured = true;
        Ok(())
    }

    /// Publishes `hash` as the digest of the key and sets the flag that says
    /// that a key was configured. The all-zero digest is refused, and the
    /// store stays as it was.
    pub fn set_digest(&mut self, hash: [u8; 32]) -> (res: Result<(), KeyError>)
        ensures
            all_zero(hash@) ==> res == Err::<(), KeyError>(KeyError::ZeroHash) && *final(self)
                == *old(self),
            !all_zero(hash@) ==> res is Ok && final(self)@ == (KeyStoreState {
                key: old(self)@.key,
                digest: Some(hash@),
                configured: true,
            }),
    {
        if is_all_zero(&hash) {
            return Err(KeyError::ZeroHash);
        }
        proof {
            use_type_invariant(&*self);
        }
        self.digest = Some(hash);
        self.configured = true;
        Ok(())
    }

    /// Removes the key and its digest.
    pub fn clear(&mut self)
        ensures
            final(self)@ == KeyStoreState::empty(),
    {
        self.key = None;
        self.digest = None;
        self.configured = false;
    }

    /// The stored key, which is structurally sound.
    pub fn get(&self) -> (key: Option<&VerificationKey>)
        ensures
            match key {
                Some(k) => self@.key == Some(*k) && k.well_formed(),
                None => self@.key is None,
            },
    {
        proof {
            use_type_invariant(self);
        }
        self.key.as_ref()
    }

    /// The published digest.
    pub fn digest(&self) -> (digest: Option<[u8; 32]>)
        ensures
            match digest {
                Some(d) => self@.digest == Some(d@),
                None => self@.digest is None,
            },
    {
        self.digest
    }

    /// Whether the flag that says that a key was configured is set.
    pub fn is_configured(&self) -> (configured: bool)
        ensures
            configured == self@.configured,
    {
        self.configured
    }

    /// The key that verification uses: the stored one, while the flag is set.
    pub fn active_key(&self) -> (key: Option<&VerificationKey>)
        ensures
            match key {
                Some(k) => self@.active_key() == Some(*k) && k.well_formed(),
                None => self@.active_key() is None,
            },
    {
        proof {
            use_type_invariant(self);
        }
        if self.configured {
            self.key.as_ref()
        } else {
            None
        }
    }
}

} // verus!
