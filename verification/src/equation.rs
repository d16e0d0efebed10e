//! The pairing equation of a proof against a verification key.
//!
//! With `A` and `B` the two elements of the proof, `C = A`, and `IC` the
//! commitment to the public inputs, a proof satisfies a key where
//! `e(A, B) * e(-alpha, beta) * e(-C, gamma) * e(-IC, delta)` is the identity.

use crate::curve::{
    g1_encoding_valid, g1_encodings, g1_negated, g1_scaled, g1_sum, g2_encoding_valid,
    g2_encodings, multi_pairing_check, pairing_product_is_one, G1Point, G2Point,
};
use crate::key::VerificationKey;
use crate::location_proof::{point_a_of, point_b_of, LocationProof};
use crate::rejection::Rejection;
use soroban_sdk::Env;
use vstd::prelude::*;

verus! {

/// The greatest number of key elements that enter an input commitment,
/// however many public inputs a proof carries.
pub const MAX_COMMITMENT_TERMS: usize = 1000;

/// The number of key elements that enter the input commitment of a proof
/// with `inputs` public inputs: one for each input, but at least the first
/// and at most `MAX_COMMITMENT_TERMS`.
pub open spec fn commitment_terms(inputs: nat) -> nat {
    if inputs == 0 {
        1
    } else if inputs <= MAX_COMMITMENT_TERMS {
        inputs
    } else {
        MAX_COMMITMENT_TERMS as nat
    }
}

/// The commitment to the first `terms` public inputs:
/// `ic[0] + inputs[1] * ic[1] + ... + inputs[terms - 1] * ic[terms - 1]`.
pub open spec fn input_commitment(ic: Seq<[u8; 64]>, inputs: Seq<u32>, terms: nat) -> Seq<u8>
    decreases terms,
{
    if terms <= 1 {
        ic[0]@
    } else {
        g1_sum(
            input_commitment(ic, inputs, (terms - 1) as nat),
            g1_scaled(ic[terms - 1]@, inputs[terms - 1]),
        )
    }
}

/// Whether the first `terms` elements of `ic` encode points of G1.
pub open spec fn ic_decodes(ic: Seq<[u8; 64]>, terms: nat) -> bool {
    forall|i: int| 0 <= i < terms ==> g1_encoding_valid(#[trigger] ic[i]@)
}

/// The reason for which no commitment to `inputs` public inputs can be
/// computed from `ic`, or `None` where one can: `ic` must have an element for
/// each input that enters the commitment, and these elements must encode
/// points. The conditions are examined in this order.
pub open spec fn commitment_verdict(ic: Seq<[u8; 64]>, inputs: nat) -> Option<Rejection> {
    if ic.len() < commitment_terms(inputs) {
        Some(Rejection::MalformedInput)
    } else if !ic_decodes(ic, commitment_terms(inputs)) {
        Some(Rejection::InvalidKey)
    } else {
        None
    }
}

impl VerificationKey {
    /// Whether the four fixed elements of the key encode curve points.
    pub open spec fn decodes(&self) -> bool {
        &&& g1_encoding_valid(self.alpha_g1@)
        &&& g2_encoding_valid(self.beta_g2@)
        &&& g2_encoding_valid(self.gamma_g2@)
        &&& g2_encoding_valid(self.delta_g2@)
    }
}

impl LocationProof {
    /// Whether the two elements of the proof encode curve points.
    pub open spec fn decodes(&self) -> bool {
        &&& g1_encoding_valid(point_a_of(self.proof@))
        &&& g2_encoding_valid(point_b_of(self.proof@))
    }
}

/// The G1 operands of the pairing equation: `A`, `-alpha`, `-C` and `-IC`.
pub open spec fn equation_g1(key: VerificationKey, proof: LocationProof) -> Seq<Seq<u8>> {
    seq![
        point_a_of(proof.proof@),
        g1_negated(key.alpha_g1@),
        g1_negated(point_a_of(proof.proof@)),
        g1_negated(
            input_commitment(
                key.ic@,
                proof.public_inputs@,
                commitment_terms(proof.public_inputs@.len()),
            ),
        ),
    ]
}

/// The G2 operands of the pairing equation: `B`, `beta`, `gamma` and `delta`.
pub open spec fn equation_g2(key: VerificationKey, proof: LocationProof) -> Seq<Seq<u8>> {
    seq![point_b_of(proof.proof@), key.beta_g2@, key.gamma_g2@, key.delta_g2@]
}

/// Whether the pairing equation holds of the proof and the key.
pub open spec fn equation_holds(key: VerificationKey, proof: LocationProof) -> bool {
    pairing_product_is_one(equation_g1(key, proof), equation_g2(key, proof))
}

/// The reason for which the pairing check turns the proof down, or `None`
/// where the proof passes it. The conditions are examined in this order.
pub open spec fn equation_verdict(key: VerificationKey, proof: LocationProof) -> Option<
    Rejection,
> {
    if !proof.decodes() {
        Some(Rejection::MalformedInput)
    } else if !key.decodes() {
        Some(Rejection::InvalidKey)
    } else if commitment_verdict(key.ic@, proof.public_inputs@.len()) is Some {
        commitment_verdict(key.ic@, proof.public_inputs@.len())
    } else if !equation_holds(key, proof) {
        Some(Rejection::VerificationFailed)
    } else {
        None
    }
}

/// Computes the commitment to the public inputs. It fails as
/// `commitment_verdict` says: where the key has too few commitment elements
/// for the inputs, and where an element that enters the commitment encodes no
/// point.
pub fn commit_inputs(env: &Env, ic: &Vec<[u8; 64]>, inputs: &Vec<u32>) -> (res: Result<
    G1Point,
    Rejection,
>)
    ensures
        match commitment_verdict(ic@, inputs@.len()) {
            Some(reason) => res == Err::<G1Point, Rejection>(reason),
            None => res matches Ok(c) && c@ == input_commitment(
                ic@,
                inputs@,
                commitment_terms(inputs@.len()),
            ),
        },
{
    let terms = if inputs.len() == 0 {
        1
    } else if inputs.len() <= MAX_COMMITMENT_TERMS {
        inputs.len()
    } else {
        MAX_COMMITMENT_TERMS
    };
    if ic.len() < terms {
        return Err(Rejection::MalformedInput);
    }
    let mut sum = match G1Point::decode(env, &ic[0]) {
        Ok(p) => p,
        Err(_) => {
            return Err(Rejection::InvalidKey);
        },
    };
    let mut i: usize = 1;
    while i < terms
        invariant
            1 <= i <= terms,
            terms == commitment_terms(inputs@.len()),
            terms <= ic@.len(),
            terms <= inputs@.len() || terms == 1,
            ic_decodes(ic@, i as nat),
            sum@ == input_commitment(ic@, inputs@, i as nat),
        decreases terms - i,
    {
        let point = match G1Point::decode(env, &ic[i]) {
            Ok(p) => p,
            Err(_) => {
                assert(!g1_encoding_valid(ic@[i as int]@));
                return Err(Rejection::InvalidKey);
            },
        };
        let scaled = point.scalar_mul(env, inputs[i]);
        sum = sum.add(env, &scaled);
        i = i + 1;
    }
    Ok(sum)
}

/// Decodes the proof and the key and checks the pairing equation. The proof
/// passes where `equation_verdict` finds nothing; otherwise the reason is
/// returned.
pub fn check_equation(env: &Env, key: &VerificationKey, proof: &LocationProof) -> (res: Result<
    (),
    Rejection,
>)
    ensures
        res == match equation_verdict(*key, *proof) {
            Some(reason) => Err::<(), Rejection>(reason),
            None => Ok(()),
        },
{
    let a = match G1Point::decode(env, &proof.point_a()) {
        Ok(p) => p,
        Err(_) => {
            return Err(Rejection::MalformedInput);
        },
    };
    let b = match G2Point::decode(env, &proof.point_b()) {
        Ok(p) => p,
        Err(_) => {
            return Err(Rejection::MalformedInput);
        },
    };
    let alpha = match G1Point::decode(env, &key.alpha_g1) {
        Ok(p) => p,
        Err(_) => {
            return Err(Rejection::InvalidKey);
        },
    };
    let beta = match G2Point::decode(env, &key.beta_g2) {
        Ok(p) => p,
        Err(_) => {
            return Err(Rejection::InvalidKey);
        },
    };
    let gamma = match G2Point::decode(env, &key.gamma_g2) {
        Ok(p) => p,
        Err(_) => {
            return Err(Rejection::InvalidKey);
        },
    };
    let delta = match G2Point::decode(env, &key.delta_g2) {
        Ok(p) => p,
        Err(_) => {
            return Err(Rejection::InvalidKey);
        },
    };
    let commitment = match commit_inputs(env, &key.ic, &proof.public_inputs) {
        Ok(c) => c,
        Err(reason) => {
            return Err(reason);
        },
    };
    let c = a;
    let g1s = vec![a, alpha.negate(env), c.negate(env), commitment.negate(env)];
    let g2s = vec![b, beta, gamma, delta];
    proof {
        assert(g1_encodings(g1s@) =~= equation_g1(*key, *proof));
        assert(g2_encodings(g2s@) =~= equation_g2(*key, *proof));
    }
    match multi_pairing_check(env, &g1s, &g2s) {
        Some(true) => Ok(()),
        _ => Err(Rejection::VerificationFailed),
    }
}

} // verus!
