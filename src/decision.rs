//! The decision rule and its mathematical model.
use vstd::prelude::*;

verus! {

/// Outcome of a claim-or-check on a group.
#[derive(Clone, Copy, Debug, PartialEq, Eq, Structural)]
pub enum Decision {
    /// The client owns the group (it may have just claimed it).
    Accepted,
    /// Another client owns the group: the event must be suppressed.
    Rejected,
}

/// The registry state in which no group has an owner.
pub open spec fn no_owners() -> Map<i64, i64> {
    Map::empty()
}

/// The decision for `client` once `owner` is the recorded owner of a group.
pub open spec fn decision_against(owner: i64, client: i64) -> Decision {
    if owner == client {
        Decision::Accepted
    } else {
        Decision::Rejected
    }
}

/// The decision for an event of `client` on `group`, given the owners
/// recorded before the event.
pub open spec fn decision_for(owners: Map<i64, i64>, group: i64, client: i64) -> Decision {
    if owners.contains_key(group) {
        decision_against(owners[group], client)
    } else {
        Decision::Accepted
    }
}

/// The owners recorded after an event of `client` on `group`: a group with
/// no owner yet is claimed, an owned group is left as it is.
pub open spec fn owners_after(owners: Map<i64, i64>, group: i64, client: i64) -> Map<i64, i64> {
    if owners.contains_key(group) {
        owners
    } else {
        owners.insert(group, client)
    }
}

/// Decides an event of `client` on a group whose owner is `owner`.
pub fn decide(owner: i64, client: i64) -> (d: Decision)
    ensures
        d == decision_against(owner, client),
{
    if owner == client {
        Decision::Accepted
    } else {
        Decision::Rejected
    }
}

impl Decision {
    /// Whether an event with this decision must be suppressed.
    pub fn suppresses(self) -> (r: bool)
        ensures
            r == (self == Decision::Rejected),
    {
        match self {
            Decision::Accepted => false,
            Decision::Rejected => true,
        }
    }
}

} // verus!
