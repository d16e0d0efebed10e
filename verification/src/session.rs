//! Matchmaking sessions: two parties join a session, each with the cell it
//! claims, and the match is then resolved between them.

use crate::bytes::same_bytes;
use crate::location_proof::LocationProof;
use vstd::prelude::*;

verus! {

/// The phase a two-party session is in.
#[derive(Clone, Copy, Debug, PartialEq, Eq, Structural)]
pub enum SessionState {
    Waiting,
    Active,
    Ended,
}

/// A session between two parties. A party is named by the 56 characters of
/// its address.
#[derive(Clone, Debug)]
pub struct Session {
    pub player1: Option<[u8; 56]>,
    pub player2: Option<[u8; 56]>,
    pub p1_cell_id: Option<u32>,
    pub p2_cell_id: Option<u32>,
    pub p1_asset_tag: Option<[u8; 32]>,
    pub p2_asset_tag: Option<[u8; 32]>,
    pub state: SessionState,
    pub created_ledger: u32,
    pub p1_country: Option<u32>,
    pub p2_country: Option<u32>,
    pub p1_location_proof: Option<LocationProof>,
    pub p2_location_proof: Option<LocationProof>,
}

/// The outcome of a resolved match.
#[derive(Clone, Debug)]
pub struct MatchResult {
    pub matched: bool,
    pub winner: Option<[u8; 56]>,
}

/// The seat a party took in a session. Taking the second seat starts the
/// game.
#[derive(Clone, Copy, Debug, PartialEq, Eq, Structural)]
pub enum Seat {
    First,
    Second,
}

/// Why a party was not let into a session.
#[derive(Clone, Copy, Debug, PartialEq, Eq, Structural)]
pub enum JoinError {
    /// The country of the party is not allowed.
    CountryNotAllowed,
    /// The location proof carries no public input.
    ProofWithoutInputs,
    /// The location proof claims another cell than the party.
    ProofMismatch,
    /// The verifier turned the location proof down.
    ProofRejected,
    /// The session is not waiting for parties.
    NotWaiting,
    /// The party already holds the first seat.
    AlreadyInSession,
    /// Both seats are taken.
    SessionFull,
}

/// Why a match could not be resolved.
#[derive(Clone, Copy, Debug, PartialEq, Eq, Structural)]
pub enum ResolveError {
    /// The session is not active.
    NotActive,
    /// The first seat is empty.
    NoFirstPlayer,
    /// The second seat is empty.
    NoSecondPlayer,
    /// The first party claimed no cell.
    NoFirstCell,
    /// The second party claimed no cell.
    NoSecondCell,
    /// The difference of the two cells does not fit the signed arithmetic in
    /// which cells are compared.
    CellOverflow,
}

/// The error of creating a session when the identifiers are used up.
#[derive(Clone, Copy, Debug, PartialEq, Eq, Structural)]
pub struct IdOverflow;

/// The rules of the matchmaking service.
pub struct GeoTrustMatch;

/// A session that waits for its first party.
pub open spec fn fresh_session(created_ledger: u32) -> Session {
    Session {
        player1: None,
        player2: None,
        p1_cell_id: None,
        p2_cell_id: None,
        p1_asset_tag: None,
        p2_asset_tag: None,
        state: SessionState::Waiting,
        created_ledger,
        p1_country: None,
        p2_country: None,
        p1_location_proof: None,
        p2_location_proof: None,
    }
}

/// Why a party with this claim is turned away before the verifier is asked,
/// or `None` where it is not: its country must be allowed, and a location
/// proof must carry a public input and claim the cell of the party. The
/// conditions are examined in this order.
pub open spec fn entry_defect(
    country_allowed: bool,
    location_proof: Option<LocationProof>,
    cell_id: u32,
) -> Option<JoinError> {
    if !country_allowed {
        Some(JoinError::CountryNotAllowed)
    } else if location_proof is None {
        None
    } else if location_proof->0.public_inputs@.len() < 1 {
        Some(JoinError::ProofWithoutInputs)
    } else if location_proof->0.public_inputs@[0] != cell_id {
        Some(JoinError::ProofMismatch)
    } else {
        None
    }
}

/// The seat that `caller` takes in the session, or why it takes none. The
/// verifier's answer comes first: a proof that it turned down lets nobody in.
pub open spec fn seat_verdict(session: Session, caller: Seq<u8>, verification: Option<bool>)
    -> Result<Seat, JoinError> {
    if verification == Some(false) {
        Err(JoinError::ProofRejected)
    } else if session.state != SessionState::Waiting {
        Err(JoinError::NotWaiting)
    } else if session.player1 is None {
        Ok(Seat::First)
    } else if session.player2 is Some {
        Err(JoinError::SessionFull)
    } else if session.player1->0@ == caller {
        Err(JoinError::AlreadyInSession)
    } else {
        Ok(Seat::Second)
    }
}

/// A cell identifier read as a signed 32-bit number.
pub open spec fn signed_cell(cell: u32) -> int {
    if cell < 0x8000_0000 {
        cell as int
    } else {
        cell - 0x1_0000_0000
    }
}

/// Whether two cells are the same or adjacent, or `None` where their signed
/// difference or its magnitude does not fit 32 bits.
pub open spec fn cells_adjacent(first: u32, second: u32) -> Option<bool> {
    let diff = signed_cell(first) - signed_cell(second);
    if diff <= -0x8000_0000 || diff > 0x7fff_ffff {
        None
    } else {
        Some(-1 <= diff <= 1)
    }
}

/// Whether two optional asset tags are both absent or both the same tag.
pub open spec fn same_tag(first: Option<[u8; 32]>, second: Option<[u8; 32]>) -> bool {
    match (first, second) {
        (Some(a), Some(b)) => a@ == b@,
        (None, None) => true,
        _ => false,
    }
}

/// Whether the two parties of a session match: they carry the same asset tag
/// and claim the same cell or adjacent cells. Cells are only compared where
/// the tags agree.
pub open spec fn match_verdict(session: Session) -> Result<bool, ResolveError> {
    if !same_tag(session.p1_asset_tag, session.p2_asset_tag) {
        Ok(false)
    } else if session.p1_cell_id == session.p2_cell_id {
        Ok(true)
    } else if session.p1_cell_id is None {
        Err(ResolveError::NoFirstCell)
    } else if session.p2_cell_id is None {
        Err(ResolveError::NoSecondCell)
    } else {
        match cells_adjacent(session.p1_cell_id->0, session.p2_cell_id->0) {
            Some(adjacent) => Ok(adjacent),
            None => Err(ResolveError::CellOverflow),
        }
    }
}

/// How a match is resolved: the session must be active and both seats taken;
/// the first party wins a match, the second wins otherwise.
pub open spec fn resolution(session: Session) -> Result<(bool, Option<[u8; 56]>), ResolveError> {
    if session.state != SessionState::Active {
        Err(ResolveError::NotActive)
    } else if session.player1 is None {
        Err(ResolveError::NoFirstPlayer)
    } else if session.player2 is None {
        Err(ResolveError::NoSecondPlayer)
    } else {
        match match_verdict(session) {
            Ok(matched) => Ok(
                (
                    matched,
                    if matched {
                        session.player1
                    } else {
                        session.player2
                    },
                ),
            ),
            Err(e) => Err(e),
        }
    }
}

/// Decides whether two cells are the same or adjacent.
pub fn compare_cells(first: u32, second: u32) -> (res: Option<bool>)
    ensures
        res == cells_adjacent(first, second),
{
    let first_high = first >= 0x8000_0000;
    let second_high = second >= 0x8000_0000;
    if first_high == second_high {
        if first >= second {
            Some(first - second <= 1)
        } else {
            Some(second - first <= 1)
        }
    } else if second_high {
        // first - (second - 2^32) = 2^32 - (second - first)
        let gap = second - first;
        if gap == u32::MAX {
            Some(true)
        } else if gap > 0x8000_0000 {
            Some(false)
        } else {
            None
        }
    } else {
        // (first - 2^32) - second = -(2^32 - (first - second))
        let gap = first - second;
        if gap == u32::MAX {
            Some(true)
        } else if gap > 0x8000_0000 {
            Some(false)
        } else {
            None
        }
    }
}

impl GeoTrustMatch {
    /// Makes the session that follows the one numbered `current_id`, waiting
    /// for its first party, and fails where the identifiers are used up.
    pub fn create_session(current_id: u32, created_ledger: u32) -> (res: Result<
        (u32, Session),
        IdOverflow,
    >)
        ensures
            current_id == u32::MAX ==> res is Err,
            current_id < u32::MAX ==> (res matches Ok(made) && made.0 == current_id + 1 && made.1
                == fresh_session(created_ledger)),
    {
        let session_id = match current_id.checked_add(1) {
            Some(id) => id,
            None => {
                return Err(IdOverflow);
            },
        };
        Ok(
            (
                session_id,
                Session {
                    player1: None,
                    player2: None,
                    p1_cell_id: None,
                    p2_cell_id: None,
                    p1_asset_tag: None,
                    p2_asset_tag: None,
                    state: SessionState::Waiting,
                    created_ledger,
                    p1_country: None,
                    p2_country: None,
                    p1_location_proof: None,
                    p2_location_proof: None,
                },
            ),
        )
    }

    /// Examines the claim of a party before the verifier is asked. Where the
    /// claim is in order, the answer says whether it comes with a location
    /// proof, which the verifier then has to confirm.
    pub fn check_entry(
        country_allowed: bool,
        location_proof: &Option<LocationProof>,
        cell_id: u32,
    ) -> (res: Result<bool, JoinError>)
        ensures
            res == match entry_defect(country_allowed, *location_proof, cell_id) {
                Some(e) => Err::<bool, JoinError>(e),
                None => Ok(location_proof is Some),
            },
    {
        if !country_allowed {
            return Err(JoinError::CountryNotAllowed);
        }
        match location_proof {
            Some(proof) => {
                if proof.public_inputs.len() < 1 {
                    return Err(JoinError::ProofWithoutInputs);
                }
                if proof.public_inputs[0] != cell_id {
                    return Err(JoinError::ProofMismatch);
                }
                Ok(true)
            },
            None => Ok(false),
        }
    }

    /// Turns a party away whose location proof the verifier turned down.
    /// `verification` is the answer of the verifier, where it was asked.
    pub fn check_verification(verification: Option<bool>) -> (res: Result<(), JoinError>)
        ensures
            res == if verification == Some(false) {
                Err::<(), JoinError>(JoinError::ProofRejected)
            } else {
                Ok(())
            },
    {
        match verification {
            Some(false) => Err(JoinError::ProofRejected),
            _ => Ok(()),
        }
    }

    /// Seats `caller` in the session. `verification` is the answer of the
    /// verifier on the location proof, where it was asked: after a `false`
    /// nobody is seated. The first party takes the first seat; the second
    /// takes the second seat and makes the session active. A party that is
    /// turned away leaves the session as it was.
    pub fn join_session(
        session: &mut Session,
        caller: [u8; 56],
        cell_id: u32,
        asset_tag: [u8; 32],
        country: u32,
        location_proof: Option<LocationProof>,
        verification: Option<bool>,
    ) -> (res: Result<Seat, JoinError>)
        ensures
            res == seat_verdict(*old(session), caller@, verification),
            res is Err ==> *final(session) == *old(session),
            res == Ok::<Seat, JoinError>(Seat::First) ==> *final(session) == (Session {
                player1: Some(caller),
                p1_cell_id: Some(cell_id),
                p1_asset_tag: Some(asset_tag),
                p1_country: Some(country),
                p1_location_proof: location_proof,
                ..*old(session)
            }),
            res == Ok::<Seat, JoinError>(Seat::Second) ==> *final(session) == (Session {
                player2: Some(caller),
                p2_cell_id: Some(cell_id),
                p2_asset_tag: Some(asset_tag),
                p2_country: Some(country),
                p2_location_proof: location_proof,
                state: SessionState::Active,
                ..*old(session)
            }),
    {
        match Self::check_verification(verification) {
            Ok(()) => {},
            Err(e) => {
                return Err(e);
            },
        }
        match session.state {
            SessionState::Waiting => {},
            _ => {
                return Err(JoinError::NotWaiting);
            },
        }
        match &session.player1 {
            None => {
                session.player1 = Some(caller);
                session.p1_cell_id = Some(cell_id);
                session.p1_asset_tag = Some(asset_tag);
                session.p1_country = Some(country);
                session.p1_location_proof = location_proof;
                Ok(Seat::First)
            },
            Some(first) => {
                if session.player2.is_some() {
                    return Err(JoinError::SessionFull);
                }
                if same_bytes(first, &caller) {
                    return Err(JoinError::AlreadyInSession);
                }
                session.player2 = Some(caller);
                session.p2_cell_id = Some(cell_id);
                session.p2_asset_tag = Some(asset_tag);
                session.p2_country = Some(country);
                session.p2_location_proof = location_proof;
                session.state = SessionState::Active;
                Ok(Seat::Second)
            },
        }
    }

    /// Resolves the match of an active session and ends the session. A
    /// session that cannot be resolved stays as it was.
    pub fn resolve_match(session: &mut Session) -> (res: Result<MatchResult, ResolveError>)
        ensures
            match resolution(*old(session)) {
                Ok(outcome) => {
                    &&& res matches Ok(result)
                    &&& result.matched == outcome.0
                    &&& result.winner == outcome.1
                    &&& *final(session) == (Session { state: SessionState::Ended, ..*old(session) })
                },
                Err(e) => res matches Err(f) && f == e && *final(session) == *old(session),
            },
    {
        match session.state {
            SessionState::Active => {},
            _ => {
                return Err(ResolveError::NotActive);
            },
        }
        let player1 = match session.player1 {
            Some(p) => p,
            None => {
                return Err(ResolveError::NoFirstPlayer);
            },
        };
        let player2 = match session.player2 {
            Some(p) => p,
            None => {
                return Err(ResolveError::NoSecondPlayer);
            },
        };
        let tags_agree = match (&session.p1_asset_tag, &session.p2_asset_tag) {
            (Some(a), Some(b)) => same_bytes(a, b),
            (None, None) => true,
            _ => false,
        };
        let matched = if !tags_agree {
            false
        } else {
            match (session.p1_cell_id, session.p2_cell_id) {
                (Some(a), Some(b)) => {
                    if a == b {
                        true
                    } else {
                        match compare_cells(a, b) {
                            Some(adjacent) => adjacent,
                            None => {
                                return Err(ResolveError::CellOverflow);
                            },
                        }
                    }
                },
                (None, None) => true,
                (None, Some(_)) => {
                    return Err(ResolveError::NoFirstCell);
                },
                (Some(_), None) => {
                    return Err(ResolveError::NoSecondCell);
                },
            }
        };
        let winner = if matched {
            Some(player1)
        } else {
            Some(player2)
        };
        session.state = SessionState::Ended;
        Ok(MatchResult { matched, winner })
    }
}

} // verus!
