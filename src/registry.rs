//! The ownership registry: group identifier to owning client identifier,
//! held in a sharded concurrent map whose entry API claims a vacant key
//! under the key's shard lock.
use std::sync::Arc;

use dashmap::DashMap;
use vstd::prelude::*;

use crate::decision::{decide, decision_for, no_owners, owners_after, Decision};

verus! {

#[verifier::external_type_specification]
#[verifier::external_body]
#[verifier::reject_recursive_types(K)]
#[verifier::reject_recursive_types(V)]
#[verifier::reject_recursive_types(S)]
pub struct ExDashMap<K, V, S>(DashMap<K, V, S>);

/// The entries held by an owner map. Only `Registry` holds a `DashMap`
/// directly, and every change to it goes through `&mut`; the map that
/// handlers share is hidden in `SharedOwnerMap`, which this name never reads.
pub uninterp spec fn owners_in(m: DashMap<i64, i64>) -> Map<i64, i64>;

/// Relies on `DashMap::new`: the new map holds no entry.
#[verifier::external_body]
fn new_owner_map() -> (r: DashMap<i64, i64>)
    ensures
        owners_in(r) == no_owners(),
{
    DashMap::new()
}

/// Relies on `DashMap::entry` and `Entry::or_insert`: with the key's shard
/// write-locked, an occupied entry keeps its value and a vacant one gets
/// `client`; the value now stored for `group` is returned.
#[verifier::external_body]
fn claim_slot(m: &mut DashMap<i64, i64>, group: i64, client: i64) -> (owner: i64)
    ensures
        owners_in(*final(m)) == owners_after(owners_in(*old(m)), group, client),
        owner == owners_in(*final(m))[group],
{
    *m.entry(group).or_insert(client)
}

/// Relies on `DashMap::get`: the value stored for `group`, if any.
#[verifier::external_body]
fn stored_owner(m: &DashMap<i64, i64>, group: i64) -> (r: Option<i64>)
    ensures
        owners_in(*m).contains_key(group) ==> r == Some(owners_in(*m)[group]),
        !owners_in(*m).contains_key(group) ==> r is None,
{
    m.get(&group).map(|e| *e)
}

/// Relies on `DashMap::len`: the number of entries.
#[verifier::external_body]
fn entry_count(m: &DashMap<i64, i64>) -> (n: usize)
    ensures
        n == owners_in(*m).len(),
{
    m.len()
}

/// A registry held by one owner at a time; every claim goes through
/// `&mut self`, so its contents are known exactly.
pub struct Registry {
    owners: DashMap<i64, i64>,
}

impl View for Registry {
    type V = Map<i64, i64>;

    closed spec fn view(&self) -> Map<i64, i64> {
        owners_in(self.owners)
    }
}

impl Registry {
    /// An empty registry.
    pub fn new() -> (r: Registry)
        ensures
            r@ == no_owners(),
    {
        Registry { owners: new_owner_map() }
    }

    /// Claims `group` for `client` if it has no owner yet, then decides the
    /// event: accepted if `client` owns the group, rejected otherwise.
    pub fn claim_or_check(&mut self, group: i64, client: i64) -> (d: Decision)
        ensures
            final(self)@ == owners_after(old(self)@, group, client),
            d == decision_for(old(self)@, group, client),
    {
        let owner = claim_slot(&mut self.owners, group, client);
        decide(owner, client)
    }

    /// The owner of `group`, if it has one.
    pub fn owner(&self, group: i64) -> (r: Option<i64>)
        ensures
            self@.contains_key(group) ==> r == Some(self@[group]),
            !self@.contains_key(group) ==> r is None,
    {
        stored_owner(&self.owners, group)
    }

    /// The number of owned groups.
    pub fn len(&self) -> (n: usize)
        ensures
            n == self@.len(),
    {
        entry_count(&self.owners)
    }
}

/// An owner map shared by concurrent event handlers; clones share one map.
/// Its content changes through `&`, so it is opaque here: nothing is stated
/// of what it holds.
#[verifier::external_body]
struct SharedOwnerMap {
    map: Arc<DashMap<i64, i64>>,
}

impl Clone for SharedOwnerMap {
    /// Relies on `Arc::clone`: the clone refers to the same map.
    #[verifier::external_body]
    fn clone(&self) -> (r: SharedOwnerMap) {
        SharedOwnerMap { map: Arc::clone(&self.map) }
    }
}

/// Relies on `DashMap::new`, behind a reference count so that clones share
/// the map.
#[verifier::external_body]
fn new_shared_owner_map() -> (r: SharedOwnerMap) {
    SharedOwnerMap { map: Arc::new(DashMap::new()) }
}

/// Relies on `DashMap::entry` and `Entry::or_insert` on the shared map: with
/// the key's shard write-locked, an occupied entry keeps its value and a
/// vacant one gets `client`, so concurrent claims on one key take effect one
/// at a time. What the map held before is unknown here, so nothing is stated
/// of the owner returned.
#[verifier::external_body]
fn claim_shared_slot(m: &SharedOwnerMap, group: i64, client: i64) -> (owner: i64) {
    *m.map.entry(group).or_insert(client)
}

/// A handle on a registry shared by concurrent event handlers; clones share
/// one registry. Its content changes under `&self`, so the outcome of a claim
/// depends on the claims of other threads.
#[derive(Clone)]
pub struct SharedRegistry {
    owners: SharedOwnerMap,
}

impl SharedRegistry {
    /// A handle on a new, empty registry.
    pub fn new() -> (r: SharedRegistry) {
        SharedRegistry { owners: new_shared_owner_map() }
    }

    /// Claims `group` for `client` if it has no owner yet, then decides the
    /// event against the owner the map holds after that step. Which client
    /// that is depends on the claims of other handles; the decision for a
    /// given owner is that of `decide`.
    pub fn claim_or_check(&self, group: i64, client: i64) -> (d: Decision) {
        let owner = claim_shared_slot(&self.owners, group, client);
        decide(owner, client)
    }
}

} // verus!
