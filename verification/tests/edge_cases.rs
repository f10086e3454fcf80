//! Edge cases and exact-value checks: deadline arithmetic, identifier
//! allocation, text capacities, tie-breaking, the event log, schedule
//! collisions and the bounded collection itself.

use pallet_proposal::bounded::BoundedVec;
use pallet_proposal::pallet::Pallet;
use pallet_proposal::types::{Config, Error, Event, ProposalStatus, Vote};

fn config() -> Config {
    Config {
        name_limit: 20,
        description_limit: 100,
        account_limit: 3,
        duration_limit: 1,
        ticks_per_day: 10,
    }
}

#[test]
fn full_day_scenario_accepted_then_inactive() {
    // Created at tick 1 with a one-day duration and ten ticks per day, the
    // proposal falls due at tick 11.
    let mut pallet = Pallet::new(config());
    assert_eq!(
        pallet.create_proposal(1, b"Budget".to_vec(), b"Fund the budget".to_vec(), 1, 1),
        Ok(1)
    );
    assert_eq!(pallet.proposal_expire(11), Some(1));

    // Account 2 (not the owner) votes yes at tick 3.
    for tick in 2..=3 {
        pallet.on_initialize(tick);
    }
    assert!(pallet.vote(2, 1, Vote::YES).is_ok());
    assert_eq!(pallet.proposals(1).unwrap().in_support.len(), 1);

    // Processing tick 11 accepts and closes the proposal.
    for tick in 4..=11 {
        pallet.on_initialize(tick);
    }
    let record = pallet.proposals(1).unwrap();
    assert_eq!(record.status, ProposalStatus::Accepted);
    assert!(!record.is_active);

    // Any later vote is answered with the inactivity error.
    assert_eq!(pallet.vote(3, 1, Vote::YES), Err(Error::ProposalNotActive));
}

#[test]
fn zero_votes_rejected_at_deadline() {
    let mut pallet = Pallet::new(config());
    assert_eq!(pallet.create_proposal(1, b"Quiet".to_vec(), b"Nobody votes".to_vec(), 1, 1), Ok(1));
    for tick in 2..=11 {
        pallet.on_initialize(tick);
    }
    let record = pallet.proposals(1).unwrap();
    assert_eq!(record.status, ProposalStatus::Rejected);
    assert!(!record.is_active);
}

#[test]
fn tied_votes_rejected_at_deadline() {
    let mut pallet = Pallet::new(config());
    assert_eq!(pallet.create_proposal(1, b"Tie".to_vec(), b"One each way".to_vec(), 1, 1), Ok(1));
    assert!(pallet.vote(2, 1, Vote::YES).is_ok());
    assert!(pallet.vote(3, 1, Vote::NO).is_ok());
    for tick in 2..=11 {
        pallet.on_initialize(tick);
    }
    assert_eq!(pallet.proposals(1).unwrap().status, ProposalStatus::Rejected);
}

#[test]
fn deadline_follows_creation_tick() {
    let mut pallet = Pallet::new(config());
    assert_eq!(pallet.create_proposal(1, b"Later".to_vec(), b"Starts at five".to_vec(), 1, 5), Ok(1));
    assert_eq!(pallet.proposal_expire(15), Some(1));
    assert_eq!(pallet.proposal_expire(11), None);
}

#[test]
fn identifiers_are_allocated_in_order() {
    let mut pallet = Pallet::new(config());
    assert_eq!(pallet.create_proposal(1, b"First".to_vec(), b"One".to_vec(), 1, 1), Ok(1));
    assert_eq!(pallet.create_proposal(2, b"Second".to_vec(), b"Two".to_vec(), 1, 2), Ok(2));
    assert!(pallet.proposals(1).is_some());
    assert!(pallet.proposals(2).is_some());
    assert_eq!(pallet.proposals(1).unwrap().owner, 1);
    assert_eq!(pallet.proposals(2).unwrap().owner, 2);
}

#[test]
fn duration_above_limit_rejected() {
    let mut pallet = Pallet::new(config());
    assert_eq!(
        pallet.create_proposal(1, b"Long".to_vec(), b"Too many days".to_vec(), 2, 1),
        Err(Error::InvalidProposalDuration)
    );
    assert!(pallet.proposals(1).is_none());
}

#[test]
fn oversized_name_cannot_be_bounded() {
    let mut pallet = Pallet::new(config());
    let name: Vec<u8> = vec![b'x'; 21];
    assert_eq!(
        pallet.create_proposal(1, name, b"Fits fine".to_vec(), 1, 1),
        Err(Error::CannotBeBounded)
    );
    // The failed attempt consumed no identifier.
    assert_eq!(pallet.create_proposal(1, b"Short".to_vec(), b"Fits fine".to_vec(), 1, 1), Ok(1));
}

#[test]
fn oversized_description_cannot_be_bounded() {
    let mut pallet = Pallet::new(config());
    let description: Vec<u8> = vec![b'y'; 101];
    assert_eq!(
        pallet.create_proposal(1, b"Short".to_vec(), description, 1, 1),
        Err(Error::CannotBeBounded)
    );
    assert!(pallet.proposals(1).is_none());
}

#[test]
fn voters_stay_partitioned() {
    let mut pallet = Pallet::new(config());
    assert_eq!(pallet.create_proposal(1, b"Split".to_vec(), b"Mixed votes".to_vec(), 1, 1), Ok(1));
    assert!(pallet.vote(2, 1, Vote::YES).is_ok());
    assert!(pallet.vote(3, 1, Vote::NO).is_ok());
    let record = pallet.proposals(1).unwrap();
    assert_eq!(record.voter_accounts.len(), 2);
    assert_eq!(record.in_support.len() + record.in_oppose.len(), record.voter_accounts.len());
    assert!(record.voter_accounts.contains(2));
    assert!(record.voter_accounts.contains(3));
    assert!(record.in_support.contains(2));
    assert!(record.in_oppose.contains(3));
    assert!(!record.in_support.contains(3));
    assert!(!record.in_oppose.contains(2));
}

#[test]
fn events_are_logged_in_order() {
    let mut pallet = Pallet::new(config());
    assert_eq!(pallet.create_proposal(1, b"Log".to_vec(), b"Event order".to_vec(), 1, 1), Ok(1));
    assert!(pallet.vote(2, 1, Vote::NO).is_ok());
    for tick in 2..=11 {
        pallet.on_initialize(tick);
    }
    assert_eq!(
        pallet.events,
        vec![Event::CreatedProposal(1), Event::VoteCasted(1), Event::ProposalClosed(1)]
    );
}

#[test]
fn failed_operations_log_no_events() {
    let mut pallet = Pallet::new(config());
    assert_eq!(
        pallet.create_proposal(1, b"Nope".to_vec(), b"Bad duration".to_vec(), 0, 1),
        Err(Error::InvalidProposalDuration)
    );
    assert_eq!(pallet.vote(2, 1, Vote::YES), Err(Error::ProposalDoesNotExist));
    assert!(pallet.events.is_empty());
}

#[test]
fn colliding_deadlines_keep_last_schedule() {
    // Two proposals created at the same tick with the same duration collide
    // in the schedule; the later entry wins and only that proposal is
    // resolved at the shared deadline.
    let mut pallet = Pallet::new(config());
    assert_eq!(pallet.create_proposal(1, b"First".to_vec(), b"One".to_vec(), 1, 1), Ok(1));
    assert_eq!(pallet.create_proposal(2, b"Second".to_vec(), b"Two".to_vec(), 1, 1), Ok(2));
    assert_eq!(pallet.proposal_expire(11), Some(2));
    for tick in 2..=11 {
        pallet.on_initialize(tick);
    }
    assert!(pallet.proposals(1).unwrap().is_active);
    assert!(!pallet.proposals(2).unwrap().is_active);
}

#[test]
fn bounded_vec_push_respects_capacity() {
    let mut b: BoundedVec<u64> = BoundedVec::new(2);
    assert_eq!(b.cap(), 2);
    assert!(b.try_push(10));
    assert!(b.try_push(20));
    assert!(!b.try_push(30));
    assert_eq!(b.len(), 2);
    assert!(b.contains(10));
    assert!(b.contains(20));
    assert!(!b.contains(30));
}

#[test]
fn bounded_vec_from_vec_checks_capacity() {
    let ok = BoundedVec::try_from_vec(vec![1u8, 2, 3], 3);
    assert!(ok.is_ok());
    assert_eq!(ok.unwrap().len(), 3);

    let too_big = BoundedVec::try_from_vec(vec![1u8, 2, 3, 4], 3);
    match too_big {
        Err(handed_back) => assert_eq!(handed_back, vec![1u8, 2, 3, 4]),
        Ok(_) => panic!("a four-element vector must not fit a capacity of three"),
    }
}
