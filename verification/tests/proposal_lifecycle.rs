//! Lifecycle tests: creation, voting, deadline resolution and the error
//! paths of each, driven through the public operations only.

use pallet_proposal::constants::{BLOCKS_PER_DAY, PROPOSAL_DURATION_LIMIT};
use pallet_proposal::pallet::Pallet;
use pallet_proposal::types::{Config, Error, ProposalStatus, Vote};

/// The configuration every test runs with.
fn test_config() -> Config {
    Config {
        name_limit: 20,
        description_limit: 100,
        account_limit: 3,
        duration_limit: PROPOSAL_DURATION_LIMIT,
        ticks_per_day: BLOCKS_PER_DAY,
    }
}

fn new_pallet() -> Pallet {
    Pallet::new(test_config())
}

/// Creates the standard first proposal (owner 1, duration 1 day) at tick 1.
fn create_proposal(pallet: &mut Pallet) {
    let proposal_name: Vec<u8> = b"First Proposal".to_vec();
    let proposal_description: Vec<u8> = b"Description of first proposal test".to_vec();

    assert!(pallet
        .create_proposal(1, proposal_name, proposal_description, 1, 1)
        .is_ok());

    assert!(pallet.proposals(1).is_some());
}

/// Drives the periodic hook for every block after `from`, up to `to`.
fn run_to_block(pallet: &mut Pallet, from: u64, to: u64) {
    let mut block = from;
    while block < to {
        block += 1;
        pallet.on_initialize(block);
    }
}

#[test]
fn create_proposal_works() {
    let mut pallet = new_pallet();

    let proposal_name: Vec<u8> = b"First Proposal".to_vec();
    let proposal_description: Vec<u8> = b"Description of first proposal test".to_vec();

    assert!(pallet
        .create_proposal(1, proposal_name, proposal_description, 1, 1)
        .is_ok());

    assert!(pallet.proposals(1).is_some());
}

#[test]
fn create_proposal_fails_invalid_proposal_duration() {
    let mut pallet = new_pallet();

    let proposal_name: Vec<u8> = b"First Proposal".to_vec();
    let proposal_description: Vec<u8> = b"Description of first proposal test".to_vec();

    assert_eq!(
        pallet.create_proposal(1, proposal_name, proposal_description, 0, 1),
        Err(Error::InvalidProposalDuration)
    );
    assert!(pallet.proposals(1).is_none());
}

#[test]
fn vote_works() {
    let mut pallet = new_pallet();
    create_proposal(&mut pallet);

    assert!(pallet.proposals(1).is_some());

    assert!(pallet.vote(2, 1, Vote::YES).is_ok());

    assert!(pallet.proposals(1).unwrap().in_support.len() == 1);
}

#[test]
fn vote_fails_proposer_votes() {
    let mut pallet = new_pallet();
    create_proposal(&mut pallet);

    assert_eq!(pallet.vote(1, 1, Vote::YES), Err(Error::OwnerCannotVote));
}

#[test]
fn vote_fails_proposal_not_exist() {
    let mut pallet = new_pallet();
    create_proposal(&mut pallet);

    assert_eq!(pallet.vote(1, 2, Vote::YES), Err(Error::ProposalDoesNotExist));
}

#[test]
fn vote_fails_proposal_not_active() {
    let mut pallet = new_pallet();
    create_proposal(&mut pallet);

    run_to_block(&mut pallet, 1, 15_000);
    assert_eq!(pallet.vote(1, 1, Vote::YES), Err(Error::ProposalNotActive));
}

#[test]
fn vote_fails_duplicate_vote() {
    let mut pallet = new_pallet();
    create_proposal(&mut pallet);

    assert!(pallet.vote(2, 1, Vote::YES).is_ok());

    assert_eq!(pallet.vote(2, 1, Vote::YES), Err(Error::DuplicateVote));
}

#[test]
fn vote_fails_account_limit_reached() {
    let mut pallet = new_pallet();
    create_proposal(&mut pallet);

    assert!(pallet.vote(2, 1, Vote::YES).is_ok());
    assert!(pallet.vote(3, 1, Vote::YES).is_ok());
    assert!(pallet.vote(4, 1, Vote::YES).is_ok());

    assert_eq!(pallet.vote(5, 1, Vote::YES), Err(Error::AccountLimitReached));
}

#[test]
fn proposal_accepted() {
    let mut pallet = new_pallet();
    create_proposal(&mut pallet);

    assert!(pallet.vote(2, 1, Vote::YES).is_ok());

    assert!(pallet.proposals(1).unwrap().in_support.len() == 1);
    assert!(pallet.proposals(1).unwrap().in_oppose.len() == 0);

    run_to_block(&mut pallet, 1, 15_000);

    assert!(pallet.proposals(1).unwrap().status == ProposalStatus::Accepted);
}

#[test]
fn proposal_rejected() {
    let mut pallet = new_pallet();
    create_proposal(&mut pallet);

    assert!(pallet.vote(2, 1, Vote::NO).is_ok());

    assert!(pallet.proposals(1).unwrap().in_support.len() == 0);
    assert!(pallet.proposals(1).unwrap().in_oppose.len() == 1);

    run_to_block(&mut pallet, 1, 20_000);

    assert!(pallet.proposals(1).unwrap().status == ProposalStatus::Rejected);
}
