//! SHA-256 digests, computed by the Soroban host.

use soroban_sdk::Env;
use vstd::prelude::*;

verus! {

/// The SHA-256 digest of a byte string.
pub uninterp spec fn sha256_digest(data: Seq<u8>) -> Seq<u8>;

/// Hashes the bytes with `soroban_sdk::crypto::Crypto::sha256` and copies the
/// 32-byte hash out. The result is the SHA-256 digest of exactly these bytes.
#[verifier::external_body]
pub(crate) fn host_sha256(env: &Env, data: &[u8]) -> (digest: [u8; 32])
    ensures
        digest@ == sha256_digest(data@),
{
    env.crypto().sha256(&soroban_sdk::Bytes::from_slice(env, data)).to_array()
}

} // verus!
