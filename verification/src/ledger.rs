//! The replay ledger: which proofs were accepted, and at which height.
//!
//! The entries live in a Soroban `Map` from 32-byte identities to heights.
//! The map is an object of the host; this module names its contents in
//! specifications and wraps the methods the ledger calls.

use soroban_sdk::{BytesN, Env};
use vstd::prelude::*;

verus! {

/// `soroban_sdk::Map`, a map that the host holds. What it contains is named
/// by `map_entries`.
#[verifier::external_type_specification]
#[verifier::external_body]
#[verifier::reject_recursive_types(K)]
#[verifier::reject_recursive_types(V)]
pub struct ExMap<K, V>(soroban_sdk::Map<K, V>);

/// `soroban_sdk::BytesN`, a byte string of fixed length that the host holds.
/// It occurs as the type of the keys of the map only.
#[verifier::external_type_specification]
#[verifier::external_body]
pub struct ExBytesN<const N: usize>(soroban_sdk::BytesN<N>);

/// A host map from 32-byte identities to heights.
pub type HeightMap = soroban_sdk::Map<BytesN<32>, u64>;

/// The entries of a host map that have a 32-byte key and a 64-bit unsigned
/// value, keyed by the bytes of the key.
pub uninterp spec fn map_entries(map: HeightMap) -> Map<Seq<u8>, u64>;

/// Whether an element of a list of keys is the key `id`.
pub open spec fn lists_key(listed: Option<[u8; 32]>, id: Seq<u8>) -> bool {
    listed matches Some(key) && key@ == id
}

/// Makes an empty map with `soroban_sdk::Map::new`.
#[verifier::external_body]
fn host_map_new(env: &Env) -> (fresh: HeightMap)
    ensures
        map_entries(fresh) =~= Map::empty(),
{
    soroban_sdk::Map::new(env)
}

/// Looks a key up with `soroban_sdk::Map::try_get`, which answers with the
/// value, with nothing where the key is absent, and with an error where the
/// value is no 64-bit unsigned number; such an entry is none of
/// `map_entries`, so the error is answered with `None` too.
#[verifier::external_body]
fn host_map_get(map: &HeightMap, id: &[u8; 32]) -> (height: Option<u64>)
    ensures
        height == if map_entries(*map).dom().contains(id@) {
            Some(map_entries(*map)[id@])
        } else {
            None
        },
{
    map.try_get(BytesN::from_array(map.env(), id)).unwrap_or(None)
}

/// Writes an entry with `soroban_sdk::Map::set`, which replaces the value of
/// a key that is present and leaves every other entry alone.
#[verifier::external_body]
fn host_map_set(map: &mut HeightMap, id: &[u8; 32], height: u64)
    ensures
        map_entries(*final(map)) == map_entries(*old(map)).insert(id@, height),
{
    let key = BytesN::from_array(map.env(), id);
    map.set(key, height)
}

/// Removes a key with `soroban_sdk::Map::remove`, which does nothing where
/// the key is absent and leaves every other entry alone.
#[verifier::external_body]
fn host_map_remove(map: &mut HeightMap, id: &[u8; 32])
    ensures
        map_entries(*final(map)) == map_entries(*old(map)).remove(id@),
{
    let key = BytesN::from_array(map.env(), id);
    map.remove(key);
}

/// Lists the keys with `soroban_sdk::Map::keys` and copies each one out, with
/// `None` in the place of a key that is not 32 bytes long. Every key of
/// `map_entries` is among them.
#[verifier::external_body]
fn host_map_keys(map: &HeightMap) -> (keys: Vec<Option<[u8; 32]>>)
    ensures
        forall|id: Seq<u8>| #[trigger]
            map_entries(*map).dom().contains(id) ==> exists|i: int|
                0 <= i < keys@.len() && lists_key(#[trigger] keys@[i], id),
{
    map.keys().try_iter().map(|key| key.ok().map(|k| k.to_array())).collect()
}

/// Why a cutoff for pruning was refused.
#[derive(Clone, Copy, Debug, PartialEq, Eq, Structural)]
pub enum PruneError {
    /// The cutoff is zero.
    ZeroCutoff,
    /// The cutoff is not below the current height.
    CutoffNotBelowCurrent,
}

/// The error of recording an identity that the ledger already holds.
#[derive(Clone, Copy, Debug, PartialEq, Eq, Structural)]
pub struct AlreadyRecorded;

/// The ledger of accepted proofs: for each identity, the height at which the
/// proof was accepted.
pub struct ReplayLedger {
    entries: HeightMap,
}

impl View for ReplayLedger {
    type V = Map<Seq<u8>, u64>;

    closed spec fn view(&self) -> Map<Seq<u8>, u64> {
        map_entries(self.entries)
    }
}

/// What is left of a ledger after pruning with the cutoff `before_height`:
/// the entries recorded at that height or later.
pub open spec fn pruned(entries: Map<Seq<u8>, u64>, before_height: u64) -> Map<Seq<u8>, u64> {
    Map::new(
        |id: Seq<u8>| entries.dom().contains(id) && entries[id] >= before_height,
        |id: Seq<u8>| entries[id],
    )
}

/// Why the cutoff `before_height` is refused at the height `current_height`,
/// or `None` where it is in order: it must not be zero, and must be below the
/// current height.
pub open spec fn cutoff_defect(before_height: u64, current_height: u64) -> Option<PruneError> {
    if before_height == 0 {
        Some(PruneError::ZeroCutoff)
    } else if before_height >= current_height {
        Some(PruneError::CutoffNotBelowCurrent)
    } else {
        None
    }
}

/// Checks a cutoff for pruning against the current height.
pub fn check_cutoff(before_height: u64, current_height: u64) -> (res: Result<(), PruneError>)
    ensures
        res == match cutoff_defect(before_height, current_height) {
            Some(e) => Err::<(), PruneError>(e),
            None => Ok(()),
        },
{
    if before_height == 0 {
        Err(PruneError::ZeroCutoff)
    } else if before_height >= current_height {
        Err(PruneError::CutoffNotBelowCurrent)
    } else {
        Ok(())
    }
}

impl ReplayLedger {
    /// A ledger without entries.
    pub fn new(env: &Env) -> (ledger: ReplayLedger)
        ensures
            ledger@ == Map::<Seq<u8>, u64>::empty(),
    {
        ReplayLedger { entries: host_map_new(env) }
    }

    /// A ledger over the entries of `entries`.
    pub fn from_map(entries: HeightMap) -> (ledger: ReplayLedger)
        ensures
            ledger@ == map_entries(entries),
    {
        ReplayLedger { entries }
    }

    /// The host map that holds the entries.
    pub fn as_map(&self) -> (entries: &HeightMap)
        ensures
            map_entries(*entries) == self@,
    {
        &self.entries
    }

    /// Whether the identity is recorded.
    pub fn contains(&self, id: &[u8; 32]) -> (found: bool)
        ensures
            found == self@.dom().contains(id@),
    {
        host_map_get(&self.entries, id).is_some()
    }

    /// The height at which the identity was recorded, if it was.
    pub fn height_of(&self, id: &[u8; 32]) -> (height: Option<u64>)
        ensures
            height == if self@.dom().contains(id@) {
                Some(self@[id@])
            } else {
                None
            },
    {
        host_map_get(&self.entries, id)
    }

    /// Records the identity at `height`. An identity that is already recorded
    /// is refused, and the ledger stays as it was.
    pub fn record(&mut self, id: &[u8; 32], height: u64) -> (res: Result<(), AlreadyRecorded>)
        ensures
            old(self)@.dom().contains(id@) ==> res is Err && *final(self) == *old(self),
            !old(self)@.dom().contains(id@) ==> res is Ok && final(self)@ == old(self)@.insert(
                id@,
                height,
            ),
    {
        if host_map_get(&self.entries, id).is_some() {
            return Err(AlreadyRecorded);
        }
        host_map_set(&mut self.entries, id, height);
        Ok(())
    }

    /// Removes the entries recorded before `before_height`. The cutoff must not
    /// be zero and must be below `current_height`; otherwise it is refused, and
    /// the ledger stays as it was.
    pub fn prune(&mut self, before_height: u64, current_height: u64) -> (res: Result<
        (),
        PruneError,
    >)
        ensures
            match cutoff_defect(before_height, current_height) {
                Some(e) => res == Err::<(), PruneError>(e) && *final(self) == *old(self),
                None => res is Ok && final(self)@ == pruned(old(self)@, before_height),
            },
    {
        match check_cutoff(before_height, current_height) {
            Ok(()) => {},
            Err(e) => {
                return Err(e);
            },
        }
        let keys = host_map_keys(&self.entries);
        let ghost before = self@;
        let mut i: usize = 0;
        while i < keys.len()
            invariant
                i <= keys.len(),
                forall|id: Seq<u8>| #[trigger]
                    before.dom().contains(id) ==> exists|j: int|
                        0 <= j < keys@.len() && lists_key(#[trigger] keys@[j], id),
                forall|id: Seq<u8>| #[trigger]
                    self@.dom().contains(id) ==> before.dom().contains(id) && self@[id]
                        == before[id],
                forall|id: Seq<u8>|
                    before.dom().contains(id) && before[id] >= before_height
                        ==> #[trigger] self@.dom().contains(id),
                forall|j: int, id: Seq<u8>|
                    0 <= j < i && lists_key(#[trigger] keys@[j], id)
                        && #[trigger] self@.dom().contains(id) ==> self@[id] >= before_height,
            decreases keys.len() - i,
        {
            let ghost prev = self@;
            match &keys[i] {
                Some(id) => {
                    match host_map_get(&self.entries, id) {
                        Some(height) => {
                            if height < before_height {
                                host_map_remove(&mut self.entries, id);
                            }
                        },
                        None => {},
                    }
                    assert(self@ == prev || self@ == prev.remove(id@));
                },
                None => {},
            }
            i = i + 1;
        }
        proof {
            assert forall|id: Seq<u8>| #[trigger]
                self@.dom().contains(id) implies before[id] >= before_height by {
                let j = choose|j: int| 0 <= j < keys@.len() && lists_key(#[trigger] keys@[j], id);
                assert(lists_key(keys@[j], id));
            }
            assert(self@ =~= pruned(before, before_height));
        }
        Ok(())
    }
}

} // verus!
