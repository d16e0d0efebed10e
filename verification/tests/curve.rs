use soroban_sdk::testutils::EnvTestConfig;
use soroban_sdk::Env;
use zk_verifier::curve::{multi_pairing_check, G1Point, G2Point, InvalidEncoding};

fn test_env() -> Env {
    let env = Env::new_with_config(EnvTestConfig {
        capture_snapshot_at_drop: false,
    });
    env.cost_estimate().budget().reset_unlimited();
    env
}

fn hex(s: &str) -> Vec<u8> {
    let digits: Vec<u8> = s
        .bytes()
        .filter(|b| !b.is_ascii_whitespace())
        .map(|b| match b {
            b'0'..=b'9' => b - b'0',
            b'a'..=b'f' => b - b'a' + 10,
            _ => panic!("not a hex digit"),
        })
        .collect();
    digits.chunks(2).map(|d| d[0] * 16 + d[1]).collect()
}

fn g1(s: &str) -> [u8; 64] {
    hex(s).try_into().unwrap()
}

fn g2(s: &str) -> [u8; 128] {
    hex(s).try_into().unwrap()
}

const G1_GENERATOR: &str = "
    0000000000000000000000000000000000000000000000000000000000000001
    0000000000000000000000000000000000000000000000000000000000000002";

const G1_GENERATOR_NEGATED: &str = "
    0000000000000000000000000000000000000000000000000000000000000001
    30644e72e131a029b85045b68181585d97816a916871ca8d3c208c16d87cfd45";

const G1_GENERATOR_DOUBLED: &str = "
    030644e72e131a029b85045b68181585d97816a916871ca8d3c208c16d87cfd3
    15ed738c0e0a7c92e7845f96b2ae9c0a68a6a449e3538fc7ff3ebf7a5a18a2c4";

const G2_GENERATOR: &str = "
    198e9393920d483a7260bfb731fb5d25f1aa493335a9e71297e485b7aef312c2
    1800deef121f1e76426a00665e5c4479674322d4f75edadd46debd5cd992f6ed
    090689d0585ff075ec9e99ad690c3395bc4b313370b38ef355acdadcd122975b
    12c85ea5db8c6deb4aab71808dcb408fe3d1e7690c43d37b4ce6cc0166fa7daa";

#[test]
fn decode_g1_accepts_the_generator_and_the_identity() {
    let env = test_env();
    let p = G1Point::decode(&env, &g1(G1_GENERATOR)).unwrap();
    assert_eq!(p.to_bytes(), g1(G1_GENERATOR));
    let o = G1Point::decode(&env, &[0u8; 64]).unwrap();
    assert_eq!(o.to_bytes(), [0u8; 64]);
}

#[test]
fn decode_g1_rejects_a_point_off_the_curve() {
    let env = test_env();
    let mut bytes = g1(G1_GENERATOR);
    bytes[63] = 3;
    assert_eq!(G1Point::decode(&env, &bytes).err(), Some(InvalidEncoding));
    assert_eq!(G1Point::decode(&env, &[1u8; 64]).err(), Some(InvalidEncoding));
}

#[test]
fn decode_g1_rejects_set_flag_bits_and_coordinates_not_below_the_modulus() {
    let env = test_env();
    let mut flagged = g1(G1_GENERATOR);
    flagged[0] = 0x80;
    assert!(G1Point::decode(&env, &flagged).is_err());
    // X = p + 1 is congruent to 1, but is no canonical field element.
    let shifted = g1("
        30644e72e131a029b85045b68181585d97816a916871ca8d3c208c16d87cfd48
        0000000000000000000000000000000000000000000000000000000000000002");
    assert!(G1Point::decode(&env, &shifted).is_err());
}

#[test]
fn decode_g2_accepts_the_generator_and_the_identity() {
    let env = test_env();
    let q = G2Point::decode(&env, &g2(G2_GENERATOR)).unwrap();
    assert_eq!(q.to_bytes(), g2(G2_GENERATOR));
    assert!(G2Point::decode(&env, &[0u8; 128]).is_ok());
}

#[test]
fn decode_g2_rejects_a_point_off_the_curve() {
    let env = test_env();
    let mut bytes = g2(G2_GENERATOR);
    bytes[127] ^= 1;
    assert_eq!(G2Point::decode(&env, &bytes).err(), Some(InvalidEncoding));
    assert!(G2Point::decode(&env, &[1u8; 128]).is_err());
}

#[test]
fn negate_reflects_the_second_coordinate() {
    let env = test_env();
    let p = G1Point::decode(&env, &g1(G1_GENERATOR)).unwrap();
    let n = p.negate(&env);
    assert_eq!(n.to_bytes(), g1(G1_GENERATOR_NEGATED));
    assert_eq!(n.negate(&env).to_bytes(), g1(G1_GENERATOR));
    let o = G1Point::decode(&env, &[0u8; 64]).unwrap();
    assert_eq!(o.negate(&env).to_bytes(), [0u8; 64]);
}

#[test]
fn add_doubles_the_generator() {
    let env = test_env();
    let p = G1Point::decode(&env, &g1(G1_GENERATOR)).unwrap();
    assert_eq!(p.add(&env, &p).to_bytes(), g1(G1_GENERATOR_DOUBLED));
    let o = G1Point::decode(&env, &[0u8; 64]).unwrap();
    assert_eq!(p.add(&env, &o).to_bytes(), g1(G1_GENERATOR));
    assert_eq!(p.add(&env, &p.negate(&env)).to_bytes(), [0u8; 64]);
}

#[test]
fn scalar_mul_by_small_scalars() {
    let env = test_env();
    let p = G1Point::decode(&env, &g1(G1_GENERATOR)).unwrap();
    assert_eq!(p.scalar_mul(&env, 0).to_bytes(), [0u8; 64]);
    assert_eq!(p.scalar_mul(&env, 1).to_bytes(), g1(G1_GENERATOR));
    assert_eq!(p.scalar_mul(&env, 2).to_bytes(), g1(G1_GENERATOR_DOUBLED));
    let three = p.add(&env, &p).add(&env, &p);
    assert_eq!(p.scalar_mul(&env, 3).to_bytes(), three.to_bytes());
}

#[test]
fn pairing_of_a_point_and_its_negation_cancels() {
    let env = test_env();
    let p = G1Point::decode(&env, &g1(G1_GENERATOR)).unwrap();
    let q = G2Point::decode(&env, &g2(G2_GENERATOR)).unwrap();
    assert_eq!(
        multi_pairing_check(&env, &vec![p, p.negate(&env)], &vec![q, q]),
        Some(true)
    );
    assert_eq!(
        multi_pairing_check(&env, &vec![p, p], &vec![q, q]),
        Some(false)
    );
    assert_eq!(multi_pairing_check(&env, &vec![p], &vec![q]), Some(false));
}

#[test]
fn pairing_with_the_identity_is_trivial() {
    let env = test_env();
    let p = G1Point::decode(&env, &g1(G1_GENERATOR)).unwrap();
    let q = G2Point::decode(&env, &g2(G2_GENERATOR)).unwrap();
    let o1 = G1Point::decode(&env, &[0u8; 64]).unwrap();
    let o2 = G2Point::decode(&env, &[0u8; 128]).unwrap();
    assert_eq!(multi_pairing_check(&env, &vec![o1], &vec![q]), Some(true));
    assert_eq!(multi_pairing_check(&env, &vec![p], &vec![o2]), Some(true));
    assert_eq!(
        multi_pairing_check(&env, &vec![o1, p], &vec![q, q]),
        Some(false)
    );
}

#[test]
fn pairing_wants_as_many_points_on_both_sides_and_at_least_one() {
    let env = test_env();
    let p = G1Point::decode(&env, &g1(G1_GENERATOR)).unwrap();
    let q = G2Point::decode(&env, &g2(G2_GENERATOR)).unwrap();
    assert_eq!(multi_pairing_check(&env, &vec![], &vec![]), None);
    assert_eq!(multi_pairing_check(&env, &vec![p, p], &vec![q]), None);
    assert_eq!(multi_pairing_check(&env, &vec![], &vec![q]), None);
}
