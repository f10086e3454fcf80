//! The lifecycle engine: owns the proposal store, the deadline scheduler and
//! the event log, and exposes the three operations of the governance core.
//!
//! Every operation is verified to follow the model transition functions of
//! [`crate::model`] exactly — the same success condition, the same error,
//! the same effect — and to preserve the governance invariant, so the laws
//! of [`crate::laws`] hold of every state an operation can produce.

use vstd::prelude::*;

use crate::bounded::BoundedVec;
use crate::laws::{lemma_create_preserves_inv, lemma_initial_inv, lemma_resolve_preserves_inv,
    lemma_vote_preserves_inv};
use crate::model::{create_result, create_step, fresh_record, initial_state, inv, resolve_step,
    resolved_record, vote_result, vote_step, voted_record, GovState};
use crate::scheduler::DeadlineScheduler;
use crate::store::{lemma_store_map_get, ProposalStore};
use crate::types::{AccountId, Config, Error, Event, Proposal, ProposalId, ProposalStatus, Tick,
    Vote};

verus! {

/// The governance core: configuration, stored proposals, deadline schedule
/// and event log, mutated only through the operations below.
pub struct Pallet {
    /// The constants the core was initialised with.
    pub config: Config,
    /// The proposal records and the identifier counter.
    pub store: ProposalStore,
    /// Which proposal falls due at which tick.
    pub expire_time: DeadlineScheduler,
    /// Every notification emitted so far, oldest first.
    pub events: Vec<Event>,
}

impl View for Pallet {
    type V = GovState;

    open spec fn view(&self) -> GovState {
        GovState {
            proposals: self.store@,
            schedule: self.expire_time@,
            next_id: self.store.next,
            events: self.events@,
            config: self.config,
        }
    }
}

impl Pallet {
    /// Well-formedness: the two keyed vectors have distinct keys, every
    /// stored record carries the configured capacities, and the abstract
    /// state satisfies the governance invariant.
    pub open spec fn wf(&self) -> bool {
        &&& self.store.wf()
        &&& self.expire_time.wf()
        &&& forall|i: int| 0 <= i < self.store.entries@.len()
            ==> (#[trigger] self.store.entries@[i]).1.caps_ok(self.config)
        &&& inv(self@)
    }

    /// A fresh core with nothing stored, nothing scheduled, no events, and
    /// identifiers starting at 1.
    pub fn new(config: Config) -> (r: Pallet)
        requires
            config.wf(),
        ensures
            r.wf(),
            r@ == initial_state(config),
    {
        let r = Pallet {
            config,
            store: ProposalStore::new(),
            expire_time: DeadlineScheduler::new(),
            events: Vec::new(),
        };
        proof {
            assert(r@ =~= initial_state(config));
            lemma_initial_inv(config);
        }
        r
    }

    /// Creates a new proposal for `origin` at clock tick `current_tick`.
    ///
    /// The duration must lie in `[1, duration_limit]` days and the texts
    /// must fit their capacities, or the call fails with the matching error
    /// and changes nothing; otherwise the record is stored under a fresh
    /// identifier, its deadline tick is scheduled, and the identifier is
    /// returned. Follows [`create_step`] exactly.
    pub fn create_proposal(&mut self, origin: AccountId, name: Vec<u8>, description: Vec<u8>,
        proposal_duration: u32, current_tick: Tick) -> (r: Result<ProposalId, Error>)
        requires
            old(self).wf(),
            1 <= proposal_duration <= old(self).config.duration_limit
                ==> current_tick + proposal_duration * old(self).config.ticks_per_day
                    <= u64::MAX,
        ensures
            final(self).wf(),
            r == create_result(old(self)@, name@, description@, proposal_duration),
            final(self)@ == create_step(old(self)@, origin, name@, description@,
                proposal_duration, current_tick),
    {
        if proposal_duration < 1 || proposal_duration > self.config.duration_limit {
            return Err(Error::InvalidProposalDuration);
        }
        self.do_create_proposal(origin, name, description, proposal_duration, current_tick)
    }

    /// The post-validation step of [`Self::create_proposal`]: bounds the
    /// texts, allocates the identifier, stores the record, schedules the
    /// deadline and emits the creation event. Callers must have checked the
    /// duration already.
    pub fn do_create_proposal(&mut self, owner: AccountId, name: Vec<u8>, description: Vec<u8>,
        proposal_duration: u32, current_tick: Tick) -> (r: Result<ProposalId, Error>)
        requires
            old(self).wf(),
            1 <= proposal_duration <= old(self).config.duration_limit,
            current_tick + proposal_duration * old(self).config.ticks_per_day <= u64::MAX,
        ensures
            final(self).wf(),
            r == create_result(old(self)@, name@, description@, proposal_duration),
            final(self)@ == create_step(old(self)@, owner, name@, description@,
                proposal_duration, current_tick),
    {
        let ghost s0 = old(self)@;
        let ghost name0 = name@;
        let ghost description0 = description@;

        let bounded_name = match BoundedVec::try_from_vec(name, self.config.name_limit as usize) {
            Ok(b) => b,
            Err(_) => {
                return Err(Error::CannotBeBounded);
            },
        };
        let bounded_description = match BoundedVec::try_from_vec(description,
            self.config.description_limit as usize) {
            Ok(b) => b,
            Err(_) => {
                return Err(Error::CannotBeBounded);
            },
        };

        let proposal_id = match self.store.next_id() {
            Ok(id) => id,
            Err(e) => {
                proof {
                    assert(self@ =~= s0);
                }
                return Err(e);
            },
        };

        let new_proposal = Proposal {
            owner,
            name: bounded_name,
            description: bounded_description,
            is_active: true,
            voter_accounts: BoundedVec::new(self.config.account_limit as usize),
            in_support: BoundedVec::new(self.config.account_limit as usize),
            in_oppose: BoundedVec::new(self.config.account_limit as usize),
            status: ProposalStatus::VotingInProgress,
        };
        proof {
            assert(new_proposal@ =~= fresh_record(owner, name0, description0));
        }

        self.store.insert(proposal_id, new_proposal);

        let total_ticks: u64 = (proposal_duration as u64) * (self.config.ticks_per_day as u64);
        let expire_tick: u64 = current_tick + total_ticks;
        self.expire_time.schedule(expire_tick, proposal_id);

        self.events.push(Event::CreatedProposal(proposal_id));

        proof {
            lemma_create_preserves_inv(s0, owner, name0, description0, proposal_duration,
                current_tick);
            assert(self@ =~= create_step(s0, owner, name0, description0, proposal_duration,
                current_tick));
        }
        Ok(proposal_id)
    }

    /// Casts `origin`'s vote on `proposal_id`.
    ///
    /// Checks, in order: the proposal exists, is still active, is not
    /// `origin`'s own, has not seen `origin` vote before, and has room for
    /// one more voter; the first failing check aborts the call with its
    /// error and changes nothing. On success the voter joins the voter list
    /// and the list the choice names, all-or-nothing. Follows [`vote_step`]
    /// exactly.
    pub fn vote(&mut self, origin: AccountId, proposal_id: ProposalId, choice: Vote)
        -> (r: Result<(), Error>)
        requires
            old(self).wf(),
        ensures
            final(self).wf(),
            r == vote_result(old(self)@, origin, proposal_id),
            final(self)@ == vote_step(old(self)@, origin, proposal_id, choice),
    {
        let ghost s0 = old(self)@;

        let idx = match self.store.index_of(proposal_id) {
            Some(i) => i,
            None => {
                return Err(Error::ProposalDoesNotExist);
            },
        };
        proof {
            lemma_store_map_get(self.store.entries@, idx as int);
        }

        if !self.store.entries[idx].1.is_active {
            return Err(Error::ProposalNotActive);
        }
        if self.store.entries[idx].1.owner == origin {
            return Err(Error::OwnerCannotVote);
        }
        if self.store.entries[idx].1.voter_accounts.contains(origin) {
            return Err(Error::DuplicateVote);
        }
        if self.store.entries[idx].1.voter_accounts.len() >= self.config.account_limit as usize {
            return Err(Error::AccountLimitReached);
        }

        let mut record = self.store.entries[idx].1.duplicate();
        let pushed_voter = record.voter_accounts.try_push(origin);
        let pushed_choice = match choice {
            Vote::YES => record.in_support.try_push(origin),
            Vote::NO => record.in_oppose.try_push(origin),
        };
        proof {
            assert(pushed_voter && pushed_choice);
            assert(record@ =~= voted_record(s0.proposals[proposal_id], origin, choice));
        }

        self.store.insert(proposal_id, record);
        self.events.push(Event::VoteCasted(proposal_id));

        proof {
            lemma_vote_preserves_inv(s0, origin, proposal_id, choice);
            assert(self@ =~= vote_step(s0, origin, proposal_id, choice));
        }
        Ok(())
    }

    /// Processes one clock tick of the host's periodic driver.
    ///
    /// A tick with no scheduled proposal is a no-op. Otherwise the due
    /// proposal is tallied — accepted on a strict support majority, rejected
    /// otherwise — closed, and a closing event is emitted. Under [`Self::wf`]
    /// a scheduled identifier always refers to a stored record, so the
    /// schedule and the store cannot desynchronise. Follows
    /// [`resolve_step`] exactly.
    pub fn on_initialize(&mut self, block_number: Tick)
        requires
            old(self).wf(),
        ensures
            final(self).wf(),
            final(self)@ == resolve_step(old(self)@, block_number),
    {
        let ghost s0 = old(self)@;

        let due = self.expire_time.due_at(block_number);
        let proposal_id = match due {
            Some(id) => id,
            None => {
                return;
            },
        };

        let idx = match self.store.index_of(proposal_id) {
            Some(i) => i,
            None => {
                proof {
                    // Excluded by the invariant: the scheduled identifier is
                    // always stored.
                    assert(s0.proposals.contains_key(s0.schedule[block_number]));
                    assert(false);
                }
                return;
            },
        };
        proof {
            lemma_store_map_get(self.store.entries@, idx as int);
        }

        let mut record = self.store.entries[idx].1.duplicate();
        let support = record.in_support.len();
        let oppose = record.in_oppose.len();
        if support > oppose {
            record.status = ProposalStatus::Accepted;
        } else {
            record.status = ProposalStatus::Rejected;
        }
        record.is_active = false;
        proof {
            assert(record@ =~= resolved_record(s0.proposals[proposal_id]));
        }

        self.store.insert(proposal_id, record);
        self.events.push(Event::ProposalClosed(proposal_id));

        proof {
            lemma_resolve_preserves_inv(s0, block_number);
            assert(self@ =~= resolve_step(s0, block_number));
        }
    }

    /// The record stored under `proposal_id`, if any, as a copy.
    pub fn proposals(&self, proposal_id: ProposalId) -> (r: Option<Proposal>)
        requires
            self.wf(),
        ensures
            match r {
                Some(p) => self@.proposals.contains_key(proposal_id)
                    && p@ == self@.proposals[proposal_id],
                None => !self@.proposals.contains_key(proposal_id),
            },
    {
        match self.store.index_of(proposal_id) {
            Some(i) => {
                proof {
                    lemma_store_map_get(self.store.entries@, i as int);
                }
                Some(self.store.entries[i].1.duplicate())
            },
            None => None,
        }
    }

    /// The proposal scheduled to fall due at `block_number`, if any.
    pub fn proposal_expire(&self, block_number: Tick) -> (r: Option<ProposalId>)
        requires
            self.wf(),
        ensures
            match r {
                Some(id) => self@.schedule.contains_key(block_number)
                    && self@.schedule[block_number] == id,
                None => !self@.schedule.contains_key(block_number),
            },
    {
        self.expire_time.due_at(block_number)
    }
}

} // verus!
