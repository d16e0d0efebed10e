//! The Soroban environment handle that every host call goes through.

use vstd::prelude::*;

verus! {

/// `soroban_sdk::Env`, the handle to the host. Nothing is known of what is
/// behind it.
#[verifier::external_type_specification]
#[verifier::external_body]
pub struct ExEnv(soroban_sdk::Env);

/// Reads the current ledger sequence number with
/// `soroban_sdk::ledger::Ledger::sequence` and widens it to 64 bits. The
/// number belongs to the environment, so nothing is promised about it.
#[verifier::external_body]
pub(crate) fn ledger_sequence(env: &soroban_sdk::Env) -> u64 {
    u64::from(env.ledger().sequence())
}

} // verus!
