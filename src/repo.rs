//! In-memory profile store, keyed by player id.

use vstd::prelude::*;
use dashmap::DashMap;
use crate::types::PlayerProfile;

verus! {

#[verifier::external_type_specification]
#[verifier::external_body]
#[verifier::reject_recursive_types(K)]
#[verifier::reject_recursive_types(V)]
#[verifier::reject_recursive_types(S)]
pub struct ExDashMap<K, V, S>(DashMap<K, V, S>);

/// What a profile map holds, key by key.
pub uninterp spec fn stored_profiles(m: DashMap<u64, PlayerProfile>) -> Map<u64, PlayerProfile>;

/// Relies on `DashMap::new`: a new map is empty.
#[verifier::external_body]
fn profiles_new() -> (r: DashMap<u64, PlayerProfile>)
    ensures
        stored_profiles(r).dom().is_empty(),
{
    DashMap::new()
}

/// Relies on `DashMap::entry` with `Entry::or_insert`: under the lock of
/// the key's shard, returns the value stored at `k`, or stores `v` there and
/// returns it when `k` is absent.
#[verifier::external_body]
fn profiles_get_or_insert(m: &mut DashMap<u64, PlayerProfile>, k: u64, v: PlayerProfile) -> (r: PlayerProfile)
    ensures
        stored_profiles(*old(m)).contains_key(k) ==> r == stored_profiles(*old(m))[k]
            && stored_profiles(*final(m)) == stored_profiles(*old(m)),
        !stored_profiles(*old(m)).contains_key(k) ==> r == v
            && stored_profiles(*final(m)) == stored_profiles(*old(m)).insert(k, v),
{
    *m.entry(k).or_insert(v)
}

/// Relies on `DashMap::insert`: stores `v` at `k`, replacing what was
/// there.
#[verifier::external_body]
fn profiles_insert(m: &mut DashMap<u64, PlayerProfile>, k: u64, v: PlayerProfile)
    ensures
        stored_profiles(*final(m)) == stored_profiles(*old(m)).insert(k, v),
{
    m.insert(k, v);
}

/// A keyed store of player profiles.
pub trait SoloRepo {
    /// Profiles held, by player id.
    spec fn profiles(&self) -> Map<u64, PlayerProfile>;

    /// The stored profile of `user_id`, or a fresh one, stored first, when
    /// there is none.
    fn get_or_create(&mut self, user_id: u64) -> (r: PlayerProfile)
        ensures
            old(self).profiles().contains_key(user_id) ==> r == old(self).profiles()[user_id]
                && final(self).profiles() == old(self).profiles(),
            !old(self).profiles().contains_key(user_id) ==> r == PlayerProfile::fresh(user_id)
                && final(self).profiles() == old(self).profiles().insert(user_id, r),
    ;

    /// Stores `profile` under its own id, replacing any earlier one.
    fn save(&mut self, profile: &PlayerProfile)
        ensures
            final(self).profiles() == old(self).profiles().insert(profile.user_id, *profile),
    ;
}

/// Profile store held in a concurrent hash map.
pub struct MemorySoloRepo {
    users: DashMap<u64, PlayerProfile>,
}

impl MemorySoloRepo {
    /// An empty store.
    pub fn new() -> (r: MemorySoloRepo)
        ensures
            r.profiles().dom().is_empty(),
    {
        MemorySoloRepo { users: profiles_new() }
    }
}

impl Default for MemorySoloRepo {
    fn default() -> (r: MemorySoloRepo)
        ensures
            r.profiles().dom().is_empty(),
    {
        MemorySoloRepo::new()
    }
}

impl SoloRepo for MemorySoloRepo {
    closed spec fn profiles(&self) -> Map<u64, PlayerProfile> {
        stored_profiles(self.users)
    }

    fn get_or_create(&mut self, user_id: u64) -> (r: PlayerProfile) {
        profiles_get_or_insert(&mut self.users, user_id, PlayerProfile::for_user(user_id))
    }

    fn save(&mut self, profile: &PlayerProfile) {
        profiles_insert(&mut self.users, profile.user_id, *profile);
    }
}

} // verus!
