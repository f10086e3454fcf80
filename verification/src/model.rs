//! The mathematical model of the governance core.
//!
//! [`GovState`] is the abstract state: the proposal map, the deadline
//! schedule, the identifier counter, the event log and the configuration.
//! The three spec transition functions [`create_step`], [`vote_step`] and
//! [`resolve_step`] say exactly what each operation does to it, and the
//! matching `*_result` functions say exactly when an operation succeeds and
//! with which error it fails. The executable operations in [`crate::pallet`]
//! are verified to follow these functions clause for clause, and the laws in
//! [`crate::laws`] are proved about them.

use vstd::prelude::*;

use crate::types::{AccountId, Config, Error, Event, ProposalId, ProposalStatus, ProposalView,
    Tick, Vote};

verus! {

/// The abstract state of the whole governance core.
#[verifier::ext_equal]
pub ghost struct GovState {
    /// Every stored proposal, by identifier.
    pub proposals: Map<ProposalId, ProposalView>,
    /// Which proposal is due at which future clock tick.
    pub schedule: Map<Tick, ProposalId>,
    /// The identifier the next successful creation will use.
    pub next_id: ProposalId,
    /// Every notification emitted so far, oldest first.
    pub events: Seq<Event>,
    /// The constants the core was initialised with.
    pub config: Config,
}

/// The state the core starts in: nothing stored, nothing scheduled, no
/// events, and identifiers starting at 1.
pub open spec fn initial_state(config: Config) -> GovState {
    GovState {
        proposals: Map::empty(),
        schedule: Map::empty(),
        next_id: 1,
        events: Seq::empty(),
        config,
    }
}

/// Well-formedness of one stored record, against the configuration:
/// the voter list is the disjoint union of the support and oppose lists,
/// the owner never votes, every list is bounded, no account appears twice,
/// and the record is active exactly while voting is in progress.
pub open spec fn record_wf(p: ProposalView, c: Config) -> bool {
    &&& !p.voter_accounts.contains(p.owner)
    &&& p.voter_accounts.no_duplicates()
    &&& p.in_support.no_duplicates()
    &&& p.in_oppose.no_duplicates()
    &&& forall|a: AccountId|
        p.voter_accounts.contains(a) <==> p.in_support.contains(a) || p.in_oppose.contains(a)
    &&& forall|a: AccountId| !(p.in_support.contains(a) && p.in_oppose.contains(a))
    &&& p.voter_accounts.len() == p.in_support.len() + p.in_oppose.len()
    &&& p.voter_accounts.len() <= c.account_limit
    &&& p.name.len() <= c.name_limit
    &&& p.description.len() <= c.description_limit
    &&& (p.is_active <==> p.status is VotingInProgress)
}

/// The governance invariant: the configuration is well formed, every stored
/// proposal has an identifier below the counter (so the counter is always
/// fresh) and a well-formed record, and every scheduled identifier refers to
/// a stored proposal (the schedule and the store never desynchronise).
pub open spec fn inv(s: GovState) -> bool {
    &&& s.config.wf()
    &&& s.next_id >= 1
    &&& forall|id: ProposalId| #[trigger] s.proposals.contains_key(id)
        ==> 1 <= id < s.next_id && record_wf(s.proposals[id], s.config)
    &&& forall|t: Tick| #[trigger] s.schedule.contains_key(t)
        ==> s.proposals.contains_key(s.schedule[t])
}

/// The record a successful creation stores: active, no votes, voting open.
pub open spec fn fresh_record(owner: AccountId, name: Seq<u8>, description: Seq<u8>)
    -> ProposalView {
    ProposalView {
        owner,
        name,
        description,
        is_active: true,
        voter_accounts: Seq::empty(),
        in_support: Seq::empty(),
        in_oppose: Seq::empty(),
        status: ProposalStatus::VotingInProgress,
    }
}

/// The tick at which a proposal created now falls due.
pub open spec fn deadline_of(s: GovState, duration: u32, now: Tick) -> Tick {
    (now + duration * s.config.ticks_per_day) as Tick
}

/// Outcome of a creation attempt, checked in order: the duration must lie in
/// `[1, duration_limit]`, the texts must fit their capacities, and only then
/// is an identifier taken, which fails once the counter is exhausted.
pub open spec fn create_result(s: GovState, name: Seq<u8>, description: Seq<u8>, duration: u32)
    -> Result<ProposalId, Error> {
    if duration < 1 || duration > s.config.duration_limit {
        Err(Error::InvalidProposalDuration)
    } else if name.len() > s.config.name_limit || description.len() > s.config.description_limit {
        Err(Error::CannotBeBounded)
    } else if s.next_id == u64::MAX {
        Err(Error::Overflow)
    } else {
        Ok(s.next_id)
    }
}

/// Effect of a creation attempt. On success the fresh record is stored under
/// the allocated identifier, its deadline is scheduled, the counter advances
/// and a creation event is logged; on failure nothing changes.
pub open spec fn create_step(s: GovState, owner: AccountId, name: Seq<u8>, description: Seq<u8>,
    duration: u32, now: Tick) -> GovState {
    match create_result(s, name, description, duration) {
        Err(_) => s,
        Ok(id) => GovState {
            proposals: s.proposals.insert(id, fresh_record(owner, name, description)),
            schedule: s.schedule.insert(deadline_of(s, duration, now), id),
            next_id: (s.next_id + 1) as ProposalId,
            events: s.events.push(Event::CreatedProposal(id)),
            config: s.config,
        },
    }
}

/// Outcome of a vote attempt, checked in the fixed precedence order:
/// existence, activity, ownership, duplication, capacity. The choice never
/// influences the outcome, only where a successful vote is recorded.
pub open spec fn vote_result(s: GovState, voter: AccountId, id: ProposalId)
    -> Result<(), Error> {
    if !s.proposals.contains_key(id) {
        Err(Error::ProposalDoesNotExist)
    } else if !s.proposals[id].is_active {
        Err(Error::ProposalNotActive)
    } else if voter == s.proposals[id].owner {
        Err(Error::OwnerCannotVote)
    } else if s.proposals[id].voter_accounts.contains(voter) {
        Err(Error::DuplicateVote)
    } else if s.proposals[id].voter_accounts.len() >= s.config.account_limit {
        Err(Error::AccountLimitReached)
    } else {
        Ok(())
    }
}

/// The record after one successful vote: the voter joins the voter list and
/// the list its choice names; everything else is untouched.
pub open spec fn voted_record(p: ProposalView, voter: AccountId, choice: Vote) -> ProposalView {
    ProposalView {
        voter_accounts: p.voter_accounts.push(voter),
        in_support: if choice is YES { p.in_support.push(voter) } else { p.in_support },
        in_oppose: if choice is NO { p.in_oppose.push(voter) } else { p.in_oppose },
        ..p
    }
}

/// Effect of a vote attempt: all-or-nothing. On success the stored record is
/// replaced by [`voted_record`] and a vote event is logged; on failure
/// nothing changes.
pub open spec fn vote_step(s: GovState, voter: AccountId, id: ProposalId, choice: Vote)
    -> GovState {
    match vote_result(s, voter, id) {
        Err(_) => s,
        Ok(_) => GovState {
            proposals: s.proposals.insert(id, voted_record(s.proposals[id], voter, choice)),
            events: s.events.push(Event::VoteCasted(id)),
            ..s
        },
    }
}

/// The terminal status a tally yields: accepted on a strict support
/// majority, rejected on a tie, a minority, or no votes at all.
pub open spec fn tally(p: ProposalView) -> ProposalStatus {
    if p.in_support.len() > p.in_oppose.len() {
        ProposalStatus::Accepted
    } else {
        ProposalStatus::Rejected
    }
}

/// The record after resolution: closed, with the tallied status.
pub open spec fn resolved_record(p: ProposalView) -> ProposalView {
    ProposalView {
        is_active: false,
        status: tally(p),
        ..p
    }
}

/// Effect of processing one clock tick. A tick with no scheduled proposal is
/// a no-op; otherwise the due proposal is tallied, closed and a closing
/// event is logged. The schedule entry itself is kept. (Under [`inv`] a
/// scheduled identifier always refers to a stored record, so the guard on
/// the store never fails for a well-formed state.)
pub open spec fn resolve_step(s: GovState, now: Tick) -> GovState {
    if s.schedule.contains_key(now) && s.proposals.contains_key(s.schedule[now]) {
        GovState {
            proposals: s.proposals.insert(
                s.schedule[now],
                resolved_record(s.proposals[s.schedule[now]]),
            ),
            events: s.events.push(Event::ProposalClosed(s.schedule[now])),
            ..s
        }
    } else {
        s
    }
}
} // verus!
