//! Sequences of events and what the ownership rule guarantees over them.
//!
//! An event is a pair `(group, client)`. The lemmas describe runs of
//! `Registry`, whose contracts are stated over `owners_after` and
//! `decision_for`: a run is a sequence of `Registry::claim_or_check` steps.
//! A `SharedRegistry` follows the same rule only insofar as the shared map's
//! per-key lock makes concurrent claims take effect one at a time, which no
//! contract here states.
use vstd::prelude::*;

use crate::decision::{decision_for, owners_after, Decision};

verus! {

/// The owners recorded after the events of `events`, in order, starting
/// from `owners`.
pub open spec fn owners_after_all(owners: Map<i64, i64>, events: Seq<(i64, i64)>) -> Map<i64, i64>
    decreases events.len(),
{
    if events.len() == 0 {
        owners
    } else {
        let prev = owners_after_all(owners, events.drop_last());
        owners_after(prev, events.last().0, events.last().1)
    }
}

/// The decision given to each event of `events`, starting from `owners`.
pub open spec fn decisions_of(owners: Map<i64, i64>, events: Seq<(i64, i64)>) -> Seq<Decision> {
    Seq::new(
        events.len(),
        |i: int| decision_for(owners_after_all(owners, events.take(i)), events[i].0, events[i].1),
    )
}

/// Whether every event of `events` is for `group`.
pub open spec fn all_for_group(events: Seq<(i64, i64)>, group: i64) -> bool {
    forall|i: int| 0 <= i < events.len() ==> #[trigger] events[i].0 == group
}

/// An owner, once recorded, stays the owner whatever events follow.
pub proof fn lemma_owner_is_permanent(owners: Map<i64, i64>, events: Seq<(i64, i64)>, group: i64)
    requires
        owners.contains_key(group),
    ensures
        owners_after_all(owners, events).contains_key(group),
        owners_after_all(owners, events)[group] == owners[group],
    decreases events.len(),
{
    if events.len() > 0 {
        lemma_owner_is_permanent(owners, events.drop_last(), group);
    }
}

/// Among events that are all for one unowned group, the client of the first
/// event becomes the group's one owner.
pub proof fn lemma_first_claim_wins(owners: Map<i64, i64>, events: Seq<(i64, i64)>, group: i64)
    requires
        !owners.contains_key(group),
        events.len() > 0,
        all_for_group(events, group),
    ensures
        owners_after_all(owners, events).contains_key(group),
        owners_after_all(owners, events)[group] == events[0].1,
    decreases events.len(),
{
    let prefix = events.drop_last();
    if events.len() == 1 {
        assert(events[0].0 == group);
        assert(owners_after_all(owners, prefix) == owners);
        assert(events.last() == events[0]);
    } else {
        assert(all_for_group(prefix, group)) by {
            assert forall|i: int| 0 <= i < prefix.len() implies #[trigger] prefix[i].0 == group by {
                assert(prefix[i] == events[i]);
            }
        }
        lemma_first_claim_wins(owners, prefix, group);
        assert(prefix[0] == events[0]);
    }
}

/// Once `client` owns `group`, each of its later events for the group is
/// accepted and leaves the owners as they are, however many there are.
pub proof fn lemma_owner_always_accepted(
    owners: Map<i64, i64>,
    events: Seq<(i64, i64)>,
    group: i64,
    client: i64,
)
    requires
        owners.contains_key(group),
        owners[group] == client,
    ensures
        decision_for(owners, group, client) == Decision::Accepted,
        owners_after(owners, group, client) == owners,
        forall|i: int|
            0 <= i < events.len() && #[trigger] events[i] == (group, client) ==> decisions_of(
                owners,
                events,
            )[i] == Decision::Accepted,
{
    assert forall|i: int|
        0 <= i < events.len() && #[trigger] events[i] == (group, client) implies decisions_of(
        owners,
        events,
    )[i] == Decision::Accepted by {
        lemma_owner_is_permanent(owners, events.take(i), group);
    }
}

/// Once `client` owns `group`, every event of another client for the group
/// is rejected and leaves the owners as they are, whatever events come
/// between.
pub proof fn lemma_others_rejected(
    owners: Map<i64, i64>,
    events: Seq<(i64, i64)>,
    group: i64,
    client: i64,
)
    requires
        owners.contains_key(group),
        owners[group] == client,
    ensures
        forall|other: i64|
            other != client ==> #[trigger] decision_for(owners, group, other) == Decision::Rejected
                && owners_after(owners, group, other) == owners,
        forall|i: int|
            0 <= i < events.len() && #[trigger] events[i].0 == group && events[i].1 != client
                ==> decisions_of(owners, events)[i] == Decision::Rejected,
{
    assert forall|i: int|
        0 <= i < events.len() && #[trigger] events[i].0 == group && events[i].1
            != client implies decisions_of(owners, events)[i] == Decision::Rejected by {
        lemma_owner_is_permanent(owners, events.take(i), group);
    }
}

/// A claim or check on `group` changes neither the owner of another group
/// nor any decision for it.
pub proof fn lemma_groups_independent(
    owners: Map<i64, i64>,
    group: i64,
    client: i64,
    other: i64,
)
    requires
        other != group,
    ensures
        owners_after(owners, group, client).contains_key(other) == owners.contains_key(other),
        owners_after(owners, group, client)[other] == owners[other],
        forall|c: i64|
            #[trigger] decision_for(owners_after(owners, group, client), other, c) == decision_for(
                owners,
                other,
                c,
            ),
{
}

/// The owner of `group` in `owners`, if it has one.
pub open spec fn owner_entry(owners: Map<i64, i64>, group: i64) -> Option<i64> {
    if owners.contains_key(group) {
        Some(owners[group])
    } else {
        None
    }
}

/// The events of `events` that are for `group`, in order.
pub open spec fn events_for(events: Seq<(i64, i64)>, group: i64) -> Seq<(i64, i64)> {
    events.filter(|e: (i64, i64)| e.0 == group)
}

/// Over a whole sequence of events, the owner of `group` depends only on the
/// events for `group`: those for other groups may be left out or not.
pub proof fn lemma_owner_depends_on_own_events(
    owners: Map<i64, i64>,
    events: Seq<(i64, i64)>,
    group: i64,
)
    ensures
        owner_entry(owners_after_all(owners, events), group) == owner_entry(
            owners_after_all(owners, events_for(events, group)),
            group,
        ),
    decreases events.len(),
{
    reveal(Seq::filter);
    if events.len() > 0 {
        let prefix = events.drop_last();
        let last = events.last();
        lemma_owner_depends_on_own_events(owners, prefix, group);
        let own = events_for(events, group);
        let own_prefix = events_for(prefix, group);
        if last.0 == group {
            assert(own == own_prefix.push(last));
            assert(own.drop_last() =~= own_prefix);
            assert(own.last() == last);
        } else {
            assert(own == own_prefix);
        }
    }
}

/// Claims on one unowned group by distinct clients, in whatever order they
/// reach the registry: the first is accepted and every other is rejected.
pub proof fn lemma_single_winner(owners: Map<i64, i64>, events: Seq<(i64, i64)>, group: i64)
    requires
        !owners.contains_key(group),
        events.len() > 0,
        all_for_group(events, group),
        forall|i: int, j: int|
            0 <= i < j < events.len() ==> #[trigger] events[i].1 != #[trigger] events[j].1,
    ensures
        decisions_of(owners, events)[0] == Decision::Accepted,
        forall|i: int| 0 < i < events.len() ==> #[trigger] decisions_of(owners, events)[i] == Decision::Rejected,
{
    assert(events.take(0) =~= Seq::<(i64, i64)>::empty());
    assert forall|i: int| 0 < i < events.len() implies #[trigger] decisions_of(owners, events)[i]
        == Decision::Rejected by {
        let prefix = events.take(i);
        assert(all_for_group(prefix, group)) by {
            assert forall|k: int| 0 <= k < prefix.len() implies #[trigger] prefix[k].0 == group by {
                assert(prefix[k] == events[k]);
            }
        }
        lemma_first_claim_wins(owners, prefix, group);
        assert(prefix[0] == events[0]);
        assert(events[0].1 != events[i].1);
    }
}

} // verus!
