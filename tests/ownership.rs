use atri_botctl::decision::{decide, Decision};
use atri_botctl::registry::{Registry, SharedRegistry};

const A: i64 = 1001;
const B: i64 = 1002;
const C: i64 = 1003;

#[test]
fn example_scenario_group_100() {
    let mut r = Registry::new();
    assert_eq!(r.claim_or_check(100, A), Decision::Accepted);
    assert_eq!(r.claim_or_check(100, B), Decision::Rejected);
    assert_eq!(r.claim_or_check(100, A), Decision::Accepted);
    assert_eq!(r.claim_or_check(100, C), Decision::Rejected);
    assert_eq!(r.owner(100), Some(A));
    assert_eq!(r.len(), 1);
}

#[test]
fn new_registry_is_empty() {
    let r = Registry::new();
    assert_eq!(r.len(), 0);
    assert_eq!(r.owner(100), None);
}

#[test]
fn first_claim_wins_among_many_clients() {
    let mut r = Registry::new();
    let clients: Vec<i64> = vec![7, 3, 9, 1, 5];
    let decisions: Vec<Decision> = clients.iter().map(|c| r.claim_or_check(42, *c)).collect();
    assert_eq!(decisions[0], Decision::Accepted);
    for d in &decisions[1..] {
        assert_eq!(*d, Decision::Rejected);
    }
    assert_eq!(r.owner(42), Some(7));
}

#[test]
fn owner_is_accepted_every_time() {
    let mut r = Registry::new();
    for _ in 0..1000 {
        assert_eq!(r.claim_or_check(5, A), Decision::Accepted);
    }
    assert_eq!(r.owner(5), Some(A));
    assert_eq!(r.len(), 1);
}

#[test]
fn other_clients_are_always_rejected() {
    let mut r = Registry::new();
    assert_eq!(r.claim_or_check(5, A), Decision::Accepted);
    for c in 0..200 {
        let client = B + c;
        assert_eq!(r.claim_or_check(5, client), Decision::Rejected);
        assert_eq!(r.claim_or_check(5, A), Decision::Accepted);
    }
    assert_eq!(r.owner(5), Some(A));
}

#[test]
fn groups_are_independent() {
    let mut r = Registry::new();
    assert_eq!(r.claim_or_check(1, A), Decision::Accepted);
    assert_eq!(r.claim_or_check(2, B), Decision::Accepted);
    assert_eq!(r.claim_or_check(1, B), Decision::Rejected);
    assert_eq!(r.claim_or_check(2, A), Decision::Rejected);
    assert_eq!(r.claim_or_check(3, A), Decision::Accepted);
    assert_eq!(r.owner(1), Some(A));
    assert_eq!(r.owner(2), Some(B));
    assert_eq!(r.owner(3), Some(A));
    assert_eq!(r.owner(4), None);
    assert_eq!(r.len(), 3);
}

#[test]
fn extreme_identifiers() {
    let mut r = Registry::new();
    assert_eq!(r.claim_or_check(i64::MIN, i64::MAX), Decision::Accepted);
    assert_eq!(r.claim_or_check(i64::MAX, i64::MIN), Decision::Accepted);
    assert_eq!(r.claim_or_check(i64::MIN, i64::MIN), Decision::Rejected);
    assert_eq!(r.owner(i64::MIN), Some(i64::MAX));
    assert_eq!(r.owner(i64::MAX), Some(i64::MIN));
}

#[test]
fn decide_against_owner() {
    assert_eq!(decide(A, A), Decision::Accepted);
    assert_eq!(decide(A, B), Decision::Rejected);
    assert_eq!(decide(-1, 0), Decision::Rejected);
}

#[test]
fn only_rejected_events_are_suppressed() {
    assert!(Decision::Rejected.suppresses());
    assert!(!Decision::Accepted.suppresses());
}

#[test]
fn shared_handles_see_one_registry() {
    let first = SharedRegistry::new();
    let second = first.clone();
    assert_eq!(first.claim_or_check(100, A), Decision::Accepted);
    assert_eq!(second.claim_or_check(100, B), Decision::Rejected);
    assert_eq!(second.claim_or_check(100, A), Decision::Accepted);
    assert_eq!(first.claim_or_check(100, C), Decision::Rejected);
    assert_eq!(second.claim_or_check(200, C), Decision::Accepted);
    assert_eq!(first.claim_or_check(200, A), Decision::Rejected);
}

#[test]
fn claims_from_many_handles_have_one_winner() {
    for round in 0..50i64 {
        let shared = SharedRegistry::new();
        let group: i64 = 9000 + round;
        let handles: Vec<SharedRegistry> = (0..16).map(|_| shared.clone()).collect();
        // A different arrival order of the sixteen clients in each round.
        let order: Vec<i64> = (0..16i64).map(|k| (k * 5 + round) % 16).collect();
        let decisions: Vec<Decision> = order
            .iter()
            .map(|c| handles[*c as usize].claim_or_check(group, *c))
            .collect();
        let accepted = decisions.iter().filter(|d| **d == Decision::Accepted).count();
        assert_eq!(accepted, 1);
        assert_eq!(decisions[0], Decision::Accepted);
        for c in 0..16i64 {
            let expected = if c == order[0] { Decision::Accepted } else { Decision::Rejected };
            assert_eq!(shared.claim_or_check(group, c), expected);
        }
    }
}
