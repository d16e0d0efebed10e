//! BN254 group elements and the operations the verifier needs on them.
//!
//! The arithmetic itself is done by the Soroban host. This module gives each
//! host operation a name in specifications, wraps the calls, and builds two
//! types on top, [`G1Point`] and [`G2Point`], whose values are always
//! encodings that the host's decoder accepts.

use soroban_env_host::Env as _;
use soroban_sdk::crypto::bn254::{Bn254G1Affine, Bn254G2Affine, Fr};
use soroban_sdk::xdr::{ScErrorCode, ScErrorType};
use soroban_sdk::Env;
use vstd::prelude::*;

verus! {

/// The prime `p` of the BN254 base field.
pub open spec fn field_modulus() -> nat {
    0x30644e72e131a029b85045b68181585d97816a916871ca8d3c208c16d87cfd47nat
}

/// The number that a byte string denotes when read big-endian.
pub open spec fn be_value(bytes: Seq<u8>) -> nat
    decreases bytes.len(),
{
    if bytes.len() == 0 {
        0
    } else {
        be_value(bytes.drop_last()) * 256 + bytes.last() as nat
    }
}

/// The `len` low-order base-256 digits of `n`, most significant first.
pub open spec fn be_bytes(n: nat, len: nat) -> Seq<u8>
    decreases len,
{
    if len == 0 {
        Seq::empty()
    } else {
        be_bytes(n / 256, (len - 1) as nat).push((n % 256) as u8)
    }
}

/// Spelling a number with `be_bytes` undoes reading it with `be_value`: the
/// bytes that spell the value of a byte string, at its length, are the byte
/// string.
pub proof fn lemma_be_bytes_of_be_value(bytes: Seq<u8>)
    ensures
        be_bytes(be_value(bytes), bytes.len()) == bytes,
    decreases bytes.len(),
{
    if bytes.len() == 0 {
        assert(be_bytes(be_value(bytes), 0) =~= bytes);
    } else {
        let head = bytes.drop_last();
        let last = bytes.last();
        lemma_be_bytes_of_be_value(head);
        let value = be_value(bytes);
        assert(value == be_value(head) * 256 + last);
        assert(value / 256 == be_value(head) && value % 256 == last as nat) by (nonlinear_arith)
            requires
                value == be_value(head) * 256 + last,
                0 <= last < 256,
        ;
        assert(be_bytes(value, bytes.len()) == be_bytes(value / 256, (bytes.len() - 1) as nat).push(
            (value % 256) as u8,
        ));
        assert(head.push(last) =~= bytes);
    }
}

/// The encoding of `-P` for an encoded G1 point `P = (X, Y)`: the same `X`,
/// and `p - Y` reduced into the field.
pub open spec fn g1_negated(point: Seq<u8>) -> Seq<u8> {
    let y = be_value(point.subrange(32, 64));
    point.subrange(0, 32) + be_bytes(((field_modulus() - y) % (field_modulus() as int)) as nat, 32)
}

/// Whether the host decodes the 64 bytes as a G1 point: flag bits clear, both
/// coordinates below `p`, and the point at infinity or on the curve.
pub uninterp spec fn g1_encoding_valid(bytes: Seq<u8>) -> bool;

/// Whether the host decodes the 128 bytes as a G2 point: flag bits clear, all
/// coordinates below `p`, and the point at infinity or on the twisted curve and
/// in the prime-order subgroup.
pub uninterp spec fn g2_encoding_valid(bytes: Seq<u8>) -> bool;

/// The encoding of `P + Q` for two encoded G1 points.
pub uninterp spec fn g1_sum(p: Seq<u8>, q: Seq<u8>) -> Seq<u8>;

/// The encoding of `k * P` for an encoded G1 point and a scalar.
pub uninterp spec fn g1_scaled(p: Seq<u8>, k: u32) -> Seq<u8>;

/// Whether the product of the pairings `e(g1s[i], g2s[i])` over all `i` is the
/// identity of the target group.
pub uninterp spec fn pairing_product_is_one(g1s: Seq<Seq<u8>>, g2s: Seq<Seq<u8>>) -> bool;

/// Asks the host whether it decodes `bytes` as a G1 point, by handing them to
/// `bn254_g1_add` as both operands. The host decodes each operand before it
/// adds, and reports a crypto error with code "invalid input" exactly when
/// the decoder refuses; that is answered with `false`. Any other host error is
/// a fault of the environment and aborts.
#[verifier::external_body]
fn host_decodes_g1(env: &Env, bytes: &[u8; 64]) -> (accepted: bool)
    ensures
        accepted == g1_encoding_valid(bytes@),
{
    let p = Bn254G1Affine::from_array(env, bytes).to_object();
    match env.host().bn254_g1_add(p, p).map(|_| true) {
        Err(e) if e.error.is_type(ScErrorType::Crypto)
            && e.error.is_code(ScErrorCode::InvalidInput) => false,
        outcome => outcome.unwrap(),
    }
}

/// Asks the host whether it decodes `bytes` as a G2 point, by pairing them with
/// the G1 point at infinity (64 zero bytes) in `bn254_multi_pairing_check`.
/// The host decodes every point before it pairs, and reports a crypto error
/// with code "invalid input" exactly when a decoder refuses; beside the point
/// at infinity that is the G2 decoder, and it is answered with `false`. Any
/// other host error is a fault of the environment and aborts.
#[verifier::external_body]
fn host_decodes_g2(env: &Env, bytes: &[u8; 128]) -> (accepted: bool)
    ensures
        accepted == g2_encoding_valid(bytes@),
{
    let g1s = soroban_sdk::Vec::from_array(env, [Bn254G1Affine::from_array(env, &[0u8; 64])]);
    let g2s = soroban_sdk::Vec::from_array(env, [Bn254G2Affine::from_array(env, bytes)]);
    match env.host().bn254_multi_pairing_check(g1s.to_object(), g2s.to_object()).map(|_| true) {
        Err(e) if e.error.is_type(ScErrorType::Crypto)
            && e.error.is_code(ScErrorCode::InvalidInput) => false,
        outcome => outcome.unwrap(),
    }
}

/// Adds two G1 points with `soroban_sdk::crypto::bn254::Bn254::g1_add`. The
/// host refuses operands that do not decode, so both must. The result is the
/// encoding of the sum, which the host's decoder accepts in turn.
#[verifier::external_body]
fn host_g1_add(env: &Env, p: &[u8; 64], q: &[u8; 64]) -> (sum: [u8; 64])
    requires
        g1_encoding_valid(p@),
        g1_encoding_valid(q@),
    ensures
        sum@ == g1_sum(p@, q@),
        g1_encoding_valid(sum@),
{
    let p = Bn254G1Affine::from_array(env, p);
    let q = Bn254G1Affine::from_array(env, q);
    env.crypto().bn254().g1_add(&p, &q).to_array()
}

/// Multiplies a G1 point by a scalar with
/// `soroban_sdk::crypto::bn254::Bn254::g1_mul`. The host refuses a point that
/// does not decode, so it must. The result is the encoding of the product,
/// which the host's decoder accepts in turn.
#[verifier::external_body]
fn host_g1_mul(env: &Env, p: &[u8; 64], k: u32) -> (product: [u8; 64])
    requires
        g1_encoding_valid(p@),
    ensures
        product@ == g1_scaled(p@, k),
        g1_encoding_valid(product@),
{
    let p = Bn254G1Affine::from_array(env, p);
    let k = Fr::from_u256(soroban_sdk::U256::from_u32(env, k));
    env.crypto().bn254().g1_mul(&p, &k).to_array()
}

/// Negates a G1 point with the `Neg` impl of
/// `soroban_sdk::crypto::bn254::Bn254G1Affine`, which keeps `X` and replaces
/// `Y` by `p - Y`, or by zero where `Y` is zero. It refuses a `Y` that is not
/// below `p`; a point that decodes has none. The negation of a point that
/// decodes decodes as well.
#[verifier::external_body]
fn host_g1_neg(env: &Env, p: &[u8; 64]) -> (negation: [u8; 64])
    requires
        g1_encoding_valid(p@),
    ensures
        negation@ == g1_negated(p@),
        g1_encoding_valid(negation@),
{
    (-Bn254G1Affine::from_array(env, p)).to_array()
}

/// Runs `soroban_sdk::crypto::bn254::Bn254::pairing_check` on the two lists.
/// The host refuses lists of different lengths, empty lists and points that do
/// not decode, so none of these may occur. The answer says whether the product
/// of the pairings is the identity of the target group.
#[verifier::external_body]
fn host_pairing_check(env: &Env, g1s: &Vec<[u8; 64]>, g2s: &Vec<[u8; 128]>) -> (holds: bool)
    requires
        g1s.len() == g2s.len(),
        g1s.len() > 0,
        forall|i: int| 0 <= i < g1s.len() ==> g1_encoding_valid(#[trigger] g1s[i]@),
        forall|i: int| 0 <= i < g2s.len() ==> g2_encoding_valid(#[trigger] g2s[i]@),
    ensures
        holds == pairing_product_is_one(
            g1s@.map_values(|p: [u8; 64]| p@),
            g2s@.map_values(|q: [u8; 128]| q@),
        ),
{
    let mut vp1 = soroban_sdk::Vec::new(env);
    for p in g1s.iter() {
        vp1.push_back(Bn254G1Affine::from_array(env, p));
    }
    let mut vp2 = soroban_sdk::Vec::new(env);
    for q in g2s.iter() {
        vp2.push_back(Bn254G2Affine::from_array(env, q));
    }
    env.crypto().bn254().pairing_check(vp1, vp2)
}

/// The error of a decoder that was handed bytes which encode no point.
#[derive(Clone, Copy, Debug, PartialEq, Eq, Structural)]
pub struct InvalidEncoding;

/// A point of G1, held in its 64-byte encoding.
#[derive(Clone, Copy, Debug)]
pub struct G1Point {
    bytes: [u8; 64],
}

/// A point of G2, held in its 128-byte encoding.
#[derive(Clone, Copy, Debug)]
pub struct G2Point {
    bytes: [u8; 128],
}

impl View for G1Point {
    type V = Seq<u8>;

    closed spec fn view(&self) -> Seq<u8> {
        self.bytes@
    }
}

impl View for G2Point {
    type V = Seq<u8>;

    closed spec fn view(&self) -> Seq<u8> {
        self.bytes@
    }
}

impl G1Point {
    #[verifier::type_invariant]
    spec fn decodes(self) -> bool {
        g1_encoding_valid(self.bytes@)
    }

    /// Decodes 64 bytes, and fails on those that encode no point of G1.
    pub fn decode(env: &Env, bytes: &[u8; 64]) -> (res: Result<G1Point, InvalidEncoding>)
        ensures
            res is Ok <==> g1_encoding_valid(bytes@),
            res matches Ok(p) ==> p@ == bytes@,
    {
        if host_decodes_g1(env, bytes) {
            Ok(G1Point { bytes: *bytes })
        } else {
            Err(InvalidEncoding)
        }
    }

    /// The encoding of the point, which the host decodes.
    pub fn to_bytes(&self) -> (bytes: [u8; 64])
        ensures
            bytes@ == self@,
            g1_encoding_valid(bytes@),
    {
        proof {
            use_type_invariant(self);
        }
        self.bytes
    }

    /// `-P`.
    pub fn negate(&self, env: &Env) -> (res: G1Point)
        ensures
            res@ == g1_negated(self@),
    {
        proof {
            use_type_invariant(self);
        }
        G1Point { bytes: host_g1_neg(env, &self.bytes) }
    }

    /// `P + Q`.
    pub fn add(&self, env: &Env, other: &G1Point) -> (res: G1Point)
        ensures
            res@ == g1_sum(self@, other@),
    {
        proof {
            use_type_invariant(self);
            use_type_invariant(other);
        }
        G1Point { bytes: host_g1_add(env, &self.bytes, &other.bytes) }
    }

    /// `k * P`.
    pub fn scalar_mul(&self, env: &Env, k: u32) -> (res: G1Point)
        ensures
            res@ == g1_scaled(self@, k),
    {
        proof {
            use_type_invariant(self);
        }
        G1Point { bytes: host_g1_mul(env, &self.bytes, k) }
    }
}

impl G2Point {
    #[verifier::type_invariant]
    spec fn decodes(self) -> bool {
        g2_encoding_valid(self.bytes@)
    }

    /// Decodes 128 bytes, and fails on those that encode no point of G2.
    pub fn decode(env: &Env, bytes: &[u8; 128]) -> (res: Result<G2Point, InvalidEncoding>)
        ensures
            res is Ok <==> g2_encoding_valid(bytes@),
            res matches Ok(p) ==> p@ == bytes@,
    {
        if host_decodes_g2(env, bytes) {
            Ok(G2Point { bytes: *bytes })
        } else {
            Err(InvalidEncoding)
        }
    }

    /// The encoding of the point, which the host decodes.
    pub fn to_bytes(&self) -> (bytes: [u8; 128])
        ensures
            bytes@ == self@,
            g2_encoding_valid(bytes@),
    {
        proof {
            use_type_invariant(self);
        }
        self.bytes
    }
}

/// The encodings of a list of G1 points, in order.
pub open spec fn g1_encodings(points: Seq<G1Point>) -> Seq<Seq<u8>> {
    points.map_values(|p: G1Point| p@)
}

/// The encodings of a list of G2 points, in order.
pub open spec fn g2_encodings(points: Seq<G2Point>) -> Seq<Seq<u8>> {
    points.map_values(|p: G2Point| p@)
}

/// Whether the product of the pairings `e(g1s[i], g2s[i])` is the identity of
/// the target group. There is no answer for lists of different lengths, and
/// none for empty lists.
pub fn multi_pairing_check(env: &Env, g1s: &Vec<G1Point>, g2s: &Vec<G2Point>) -> (holds: Option<
    bool,
>)
    ensures
        holds == if g1s@.len() == g2s@.len() && g1s@.len() > 0 {
            Some(pairing_product_is_one(g1_encodings(g1s@), g2_encodings(g2s@)))
        } else {
            None
        },
{
    if g1s.len() != g2s.len() || g1s.len() == 0 {
        return None;
    }
    let mut left: Vec<[u8; 64]> = Vec::new();
    let mut right: Vec<[u8; 128]> = Vec::new();
    let n = g1s.len();
    let mut i: usize = 0;
    while i < n
        invariant
            i <= n,
            n == g1s.len(),
            n == g2s.len(),
            left.len() == i,
            right.len() == i,
            forall|j: int| 0 <= j < i ==> (#[trigger] left[j])@ == g1s[j]@,
            forall|j: int| 0 <= j < i ==> (#[trigger] right[j])@ == g2s[j]@,
            forall|j: int| 0 <= j < i ==> g1_encoding_valid(#[trigger] left[j]@),
            forall|j: int| 0 <= j < i ==> g2_encoding_valid(#[trigger] right[j]@),
        decreases n - i,
    {
        let p = &g1s[i];
        let q = &g2s[i];
        proof {
            use_type_invariant(p);
            use_type_invariant(q);
        }
        left.push(p.bytes);
        right.push(q.bytes);
        i = i + 1;
    }
    proof {
        assert(left@.map_values(|p: [u8; 64]| p@) =~= g1_encodings(g1s@));
        assert(right@.map_values(|q: [u8; 128]| q@) =~= g2_encodings(g2s@));
    }
    Some(host_pairing_check(env, &left, &right))
}

} // verus!
