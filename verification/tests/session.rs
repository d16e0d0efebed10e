use zk_verifier::location_proof::LocationProof;
use zk_verifier::session::{
    compare_cells, GeoTrustMatch, IdOverflow, JoinError, ResolveError, Seat, Session,
    SessionState,
};

const ALICE: [u8; 56] = *b"GAAAAAAAAAAAAAAAAAAAAAAAAAAAAAAAAAAAAAAAAAAAAAAAAAAAAWHF";
const BOB: [u8; 56] = *b"GBBBBBBBBBBBBBBBBBBBBBBBBBBBBBBBBBBBBBBBBBBBBBBBBBBBBWHF";
const CAROL: [u8; 56] = *b"GCCCCCCCCCCCCCCCCCCCCCCCCCCCCCCCCCCCCCCCCCCCCCCCCCCCCWHF";

fn waiting() -> Session {
    GeoTrustMatch::create_session(0, 100).unwrap().1
}

fn active(cell1: u32, tag1: [u8; 32], cell2: u32, tag2: [u8; 32]) -> Session {
    let mut s = waiting();
    GeoTrustMatch::join_session(&mut s, ALICE, cell1, tag1, 840, None, None).unwrap();
    GeoTrustMatch::join_session(&mut s, BOB, cell2, tag2, 840, None, None).unwrap();
    s
}

fn some_proof(cell: u32) -> LocationProof {
    LocationProof {
        proof: [1u8; 64],
        public_inputs: vec![cell, 1_000_000],
    }
}

#[test]
fn test_session_flow() {
    let (session_id, mut session) = GeoTrustMatch::create_session(0, 7).unwrap();
    assert_eq!(session_id, 1u32);

    let asset_tag = [0u8; 32];

    GeoTrustMatch::join_session(&mut session, ALICE, 1u32, asset_tag, 840, None, None).unwrap();
    GeoTrustMatch::join_session(&mut session, BOB, 1u32, asset_tag, 840, None, None).unwrap();

    let result = GeoTrustMatch::resolve_match(&mut session).unwrap();
    assert!(result.matched);
}

#[test]
fn create_session_counts_up_and_starts_waiting() {
    let (id, s) = GeoTrustMatch::create_session(41, 1234).unwrap();
    assert_eq!(id, 42);
    assert_eq!(s.state, SessionState::Waiting);
    assert_eq!(s.created_ledger, 1234);
    assert!(s.player1.is_none() && s.player2.is_none());
    assert!(s.p1_cell_id.is_none() && s.p2_cell_id.is_none());
    assert!(s.p1_asset_tag.is_none() && s.p2_asset_tag.is_none());
    assert!(s.p1_country.is_none() && s.p2_country.is_none());
    assert!(s.p1_location_proof.is_none() && s.p2_location_proof.is_none());
    assert_eq!(
        GeoTrustMatch::create_session(u32::MAX - 1, 0).unwrap().0,
        u32::MAX
    );
    assert_eq!(
        GeoTrustMatch::create_session(u32::MAX, 0).err(),
        Some(IdOverflow)
    );
}

#[test]
fn check_entry_examines_country_then_proof() {
    assert_eq!(GeoTrustMatch::check_entry(true, &None, 5), Ok(false));
    assert_eq!(
        GeoTrustMatch::check_entry(false, &None, 5),
        Err(JoinError::CountryNotAllowed)
    );
    assert_eq!(
        GeoTrustMatch::check_entry(true, &Some(some_proof(5)), 5),
        Ok(true)
    );
    assert_eq!(
        GeoTrustMatch::check_entry(true, &Some(some_proof(6)), 5),
        Err(JoinError::ProofMismatch)
    );
    let empty = LocationProof {
        proof: [1u8; 64],
        public_inputs: vec![],
    };
    assert_eq!(
        GeoTrustMatch::check_entry(true, &Some(empty), 5),
        Err(JoinError::ProofWithoutInputs)
    );
    // One input is enough here.
    let single = LocationProof {
        proof: [1u8; 64],
        public_inputs: vec![5],
    };
    assert_eq!(GeoTrustMatch::check_entry(true, &Some(single), 5), Ok(true));
    // The country comes first.
    assert_eq!(
        GeoTrustMatch::check_entry(false, &Some(some_proof(6)), 5),
        Err(JoinError::CountryNotAllowed)
    );
}

#[test]
fn first_party_takes_the_first_seat() {
    let mut s = waiting();
    let seat = GeoTrustMatch::join_session(
        &mut s,
        ALICE,
        11,
        [3u8; 32],
        840,
        Some(some_proof(11)),
        Some(true),
    );
    assert_eq!(seat, Ok(Seat::First));
    assert_eq!(s.player1, Some(ALICE));
    assert_eq!(s.p1_cell_id, Some(11));
    assert_eq!(s.p1_asset_tag, Some([3u8; 32]));
    assert_eq!(s.p1_country, Some(840));
    assert_eq!(s.p1_location_proof.as_ref().unwrap().public_inputs, vec![11, 1_000_000]);
    assert_eq!(s.state, SessionState::Waiting);
    assert!(s.player2.is_none());
    assert_eq!(s.created_ledger, 100);
}

#[test]
fn second_party_takes_the_second_seat_and_starts_the_session() {
    let mut s = waiting();
    GeoTrustMatch::join_session(&mut s, ALICE, 11, [3u8; 32], 840, None, None).unwrap();
    let seat = GeoTrustMatch::join_session(&mut s, BOB, 12, [4u8; 32], 826, None, None);
    assert_eq!(seat, Ok(Seat::Second));
    assert_eq!(s.player1, Some(ALICE));
    assert_eq!(s.player2, Some(BOB));
    assert_eq!(s.p2_cell_id, Some(12));
    assert_eq!(s.p2_asset_tag, Some([4u8; 32]));
    assert_eq!(s.p2_country, Some(826));
    assert!(s.p2_location_proof.is_none());
    assert_eq!(s.p1_cell_id, Some(11));
    assert_eq!(s.state, SessionState::Active);
}

#[test]
fn the_same_party_cannot_take_both_seats() {
    let mut s = waiting();
    GeoTrustMatch::join_session(&mut s, ALICE, 11, [3u8; 32], 840, None, None).unwrap();
    assert_eq!(
        GeoTrustMatch::join_session(&mut s, ALICE, 12, [4u8; 32], 840, None, None),
        Err(JoinError::AlreadyInSession)
    );
    assert!(s.player2.is_none());
    assert_eq!(s.state, SessionState::Waiting);
    assert_eq!(s.p1_cell_id, Some(11));
}

#[test]
fn a_rejected_proof_seats_nobody() {
    let mut s = waiting();
    let submitted = Some(some_proof(11));
    assert_eq!(
        GeoTrustMatch::join_session(&mut s, ALICE, 11, [3u8; 32], 840, submitted, Some(false)),
        Err(JoinError::ProofRejected)
    );
    assert!(s.player1.is_none());
    assert!(s.p1_location_proof.is_none());
    assert_eq!(s.state, SessionState::Waiting);
    GeoTrustMatch::join_session(&mut s, ALICE, 11, [3u8; 32], 840, None, None).unwrap();
    let submitted = Some(some_proof(11));
    assert_eq!(
        GeoTrustMatch::join_session(&mut s, BOB, 11, [3u8; 32], 840, submitted, Some(false)),
        Err(JoinError::ProofRejected)
    );
    assert!(s.player2.is_none());
    assert_eq!(s.state, SessionState::Waiting);
}

#[test]
fn a_session_that_is_not_waiting_takes_no_party() {
    let mut s = active(1, [0u8; 32], 1, [0u8; 32]);
    assert_eq!(
        GeoTrustMatch::join_session(&mut s, CAROL, 1, [0u8; 32], 840, None, None),
        Err(JoinError::NotWaiting)
    );
    GeoTrustMatch::resolve_match(&mut s).unwrap();
    assert_eq!(
        GeoTrustMatch::join_session(&mut s, CAROL, 1, [0u8; 32], 840, None, None),
        Err(JoinError::NotWaiting)
    );
    assert_eq!(s.player1, Some(ALICE));
    assert_eq!(s.player2, Some(BOB));
}

#[test]
fn a_waiting_session_with_both_seats_taken_is_full() {
    let mut s = waiting();
    s.player1 = Some(ALICE);
    s.player2 = Some(BOB);
    assert_eq!(
        GeoTrustMatch::join_session(&mut s, CAROL, 1, [0u8; 32], 840, None, None),
        Err(JoinError::SessionFull)
    );
    // A full session is reported before a party that is in it already.
    assert_eq!(
        GeoTrustMatch::join_session(&mut s, ALICE, 1, [0u8; 32], 840, None, None),
        Err(JoinError::SessionFull)
    );
}

#[test]
fn compare_cells_on_small_numbers() {
    assert_eq!(compare_cells(5, 5), Some(true));
    assert_eq!(compare_cells(5, 6), Some(true));
    assert_eq!(compare_cells(6, 5), Some(true));
    assert_eq!(compare_cells(5, 7), Some(false));
    assert_eq!(compare_cells(7, 5), Some(false));
    assert_eq!(compare_cells(0, 100_000), Some(false));
    assert_eq!(compare_cells(0, 0x7fff_ffff), Some(false));
}

#[test]
fn compare_cells_reads_large_numbers_as_negative() {
    // 2^32 - 1 is -1, next to 0.
    assert_eq!(compare_cells(0, u32::MAX), Some(true));
    assert_eq!(compare_cells(u32::MAX, 0), Some(true));
    assert_eq!(compare_cells(1, u32::MAX), Some(false));
    assert_eq!(compare_cells(u32::MAX, u32::MAX - 1), Some(true));
    assert_eq!(compare_cells(0x8000_0000, 0x8000_0002), Some(false));
    // 2^31 is the least number, 2^31 - 1 the greatest: too far apart.
    assert_eq!(compare_cells(0x7fff_ffff, 0x8000_0000), None);
    assert_eq!(compare_cells(0x8000_0000, 0x7fff_ffff), None);
    assert_eq!(compare_cells(0x8000_0000, 1), None);
    // The difference fits, but its magnitude does not.
    assert_eq!(compare_cells(0x8000_0000, 0), None);
    assert_eq!(compare_cells(0, 0x8000_0000), None);
    assert_eq!(compare_cells(0, 0x8000_0001), Some(false));
    assert_eq!(compare_cells(0x8000_0001, 0), Some(false));
}

#[test]
fn resolve_match_wants_the_same_tag_and_near_cells() {
    let mut s = active(10, [1u8; 32], 10, [1u8; 32]);
    let r = GeoTrustMatch::resolve_match(&mut s).unwrap();
    assert!(r.matched);
    assert_eq!(r.winner, Some(ALICE));
    assert_eq!(s.state, SessionState::Ended);

    let mut s = active(10, [1u8; 32], 11, [1u8; 32]);
    let r = GeoTrustMatch::resolve_match(&mut s).unwrap();
    assert!(r.matched);
    assert_eq!(r.winner, Some(ALICE));

    let mut s = active(10, [1u8; 32], 12, [1u8; 32]);
    let r = GeoTrustMatch::resolve_match(&mut s).unwrap();
    assert!(!r.matched);
    assert_eq!(r.winner, Some(BOB));
    assert_eq!(s.state, SessionState::Ended);

    let mut s = active(10, [1u8; 32], 10, [2u8; 32]);
    let r = GeoTrustMatch::resolve_match(&mut s).unwrap();
    assert!(!r.matched);
    assert_eq!(r.winner, Some(BOB));
}

#[test]
fn resolve_match_wants_an_active_session_with_two_parties() {
    let mut s = waiting();
    assert_eq!(
        GeoTrustMatch::resolve_match(&mut s).err(),
        Some(ResolveError::NotActive)
    );
    let mut s = active(10, [1u8; 32], 10, [1u8; 32]);
    GeoTrustMatch::resolve_match(&mut s).unwrap();
    assert_eq!(
        GeoTrustMatch::resolve_match(&mut s).err(),
        Some(ResolveError::NotActive)
    );
    let mut s = active(10, [1u8; 32], 10, [1u8; 32]);
    s.player1 = None;
    assert_eq!(
        GeoTrustMatch::resolve_match(&mut s).err(),
        Some(ResolveError::NoFirstPlayer)
    );
    assert_eq!(s.state, SessionState::Active);
    let mut s = active(10, [1u8; 32], 10, [1u8; 32]);
    s.player2 = None;
    assert_eq!(
        GeoTrustMatch::resolve_match(&mut s).err(),
        Some(ResolveError::NoSecondPlayer)
    );
}

#[test]
fn resolve_match_reports_missing_and_distant_cells() {
    let mut s = active(10, [1u8; 32], 10, [1u8; 32]);
    s.p1_cell_id = None;
    assert_eq!(
        GeoTrustMatch::resolve_match(&mut s).err(),
        Some(ResolveError::NoFirstCell)
    );
    let mut s = active(10, [1u8; 32], 10, [1u8; 32]);
    s.p2_cell_id = None;
    assert_eq!(
        GeoTrustMatch::resolve_match(&mut s).err(),
        Some(ResolveError::NoSecondCell)
    );
    assert_eq!(s.state, SessionState::Active);
    // Cells are not looked at where the tags differ.
    let mut s = active(10, [1u8; 32], 10, [2u8; 32]);
    s.p2_cell_id = None;
    assert!(!GeoTrustMatch::resolve_match(&mut s).unwrap().matched);
    // Two absent cells are the same cell.
    let mut s = active(10, [1u8; 32], 10, [1u8; 32]);
    s.p1_cell_id = None;
    s.p2_cell_id = None;
    assert!(GeoTrustMatch::resolve_match(&mut s).unwrap().matched);
    let mut s = active(0x7fff_ffff, [1u8; 32], 0x8000_0000, [1u8; 32]);
    assert_eq!(
        GeoTrustMatch::resolve_match(&mut s).err(),
        Some(ResolveError::CellOverflow)
    );
    assert_eq!(s.state, SessionState::Active);
}
