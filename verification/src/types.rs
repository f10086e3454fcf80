//! Data model of the governance core: configuration, the proposal record and
//! its mathematical view, vote choices, statuses, errors and events.

use vstd::prelude::*;

use crate::bounded::BoundedVec;

verus! {

/// An account identifier, as resolved by the host's caller-identity source.
pub type AccountId = u64;

/// A proposal identifier, allocated by the store's monotonic counter.
pub type ProposalId = u64;

/// A clock tick of the host chain (a block height).
pub type Tick = u64;

/// A yes/no choice cast by a voter.
#[derive(Clone, Copy, PartialEq, Eq, Structural, Debug)]
pub enum Vote {
    YES,
    NO,
}

/// Lifecycle status of a proposal: voting, then exactly one terminal outcome.
#[derive(Clone, Copy, PartialEq, Eq, Structural, Debug)]
pub enum ProposalStatus {
    /// Voting window still open.
    VotingInProgress,
    /// Resolved with strictly more supporting than opposing votes.
    Accepted,
    /// Resolved with no majority in support (ties and zero votes included).
    Rejected,
}

/// Everything that can go wrong in a `create_proposal` or `vote` call.
#[derive(Clone, Copy, PartialEq, Eq, Structural, Debug)]
pub enum Error {
    /// No proposal is stored under the given identifier.
    ProposalDoesNotExist,
    /// A malformed description. Reserved: no operation reports it today,
    /// oversized text is answered with [`Error::CannotBeBounded`].
    BadDescription,
    /// The proposal has already been resolved.
    ProposalNotActive,
    /// The account has already voted on this proposal.
    DuplicateVote,
    /// The voter list already holds the configured maximum of accounts.
    AccountLimitReached,
    /// The requested duration lies outside the configured day range.
    InvalidProposalDuration,
    /// The owner of a proposal may not vote on it.
    OwnerCannotVote,
    /// A name or description does not fit its configured capacity.
    CannotBeBounded,
    /// The identifier counter has reached the largest representable value.
    Overflow,
}

/// Notifications handed to the host's event sink, in emission order.
#[derive(Clone, Copy, PartialEq, Eq, Structural, Debug)]
pub enum Event {
    /// A proposal was created under the carried identifier.
    CreatedProposal(ProposalId),
    /// A vote was cast on the carried proposal.
    VoteCasted(ProposalId),
    /// The carried proposal was resolved and closed.
    ProposalClosed(ProposalId),
}

/// Configuration constants supplied once, when the pallet is initialised.
#[derive(Clone, Copy, PartialEq, Eq, Structural, Debug)]
pub struct Config {
    /// Capacity, in bytes, of a proposal name.
    pub name_limit: u32,
    /// Capacity, in bytes, of a proposal description.
    pub description_limit: u32,
    /// Largest number of distinct accounts that may vote on one proposal.
    pub account_limit: u32,
    /// Inclusive upper bound, in days, on a proposal's voting duration.
    pub duration_limit: u32,
    /// Clock ticks per day; converts a duration in days to a deadline tick.
    pub ticks_per_day: u32,
}

impl Config {
    /// All configured constants must be positive.
    pub open spec fn wf(self) -> bool {
        &&& self.name_limit >= 1
        &&& self.description_limit >= 1
        &&& self.account_limit >= 1
        &&& self.duration_limit >= 1
        &&& self.ticks_per_day >= 1
    }
}

/// One stored proposal record.
pub struct Proposal {
    /// The creating account; never allowed to vote, immutable after creation.
    pub owner: AccountId,
    /// Bounded name text, immutable after creation.
    pub name: BoundedVec<u8>,
    /// Bounded description text, immutable after creation.
    pub description: BoundedVec<u8>,
    /// `true` from creation until resolution, then permanently `false`.
    pub is_active: bool,
    /// Every account that has voted, in voting order, each at most once.
    pub voter_accounts: BoundedVec<AccountId>,
    /// The voters that chose yes, in voting order.
    pub in_support: BoundedVec<AccountId>,
    /// The voters that chose no, in voting order.
    pub in_oppose: BoundedVec<AccountId>,
    /// Lifecycle status; leaves `VotingInProgress` exactly once, at resolution.
    pub status: ProposalStatus,
}

/// The mathematical view of a [`Proposal`]: the same record over sequences.
#[verifier::ext_equal]
pub ghost struct ProposalView {
    pub owner: AccountId,
    pub name: Seq<u8>,
    pub description: Seq<u8>,
    pub is_active: bool,
    pub voter_accounts: Seq<AccountId>,
    pub in_support: Seq<AccountId>,
    pub in_oppose: Seq<AccountId>,
    pub status: ProposalStatus,
}

impl View for Proposal {
    type V = ProposalView;

    open spec fn view(&self) -> ProposalView {
        ProposalView {
            owner: self.owner,
            name: self.name@,
            description: self.description@,
            is_active: self.is_active,
            voter_accounts: self.voter_accounts@,
            in_support: self.in_support@,
            in_oppose: self.in_oppose@,
            status: self.status,
        }
    }
}

impl Proposal {
    /// The record's bounded collections carry exactly the configured capacities.
    pub open spec fn caps_ok(self, c: Config) -> bool {
        &&& self.name.wf()
        &&& self.description.wf()
        &&& self.voter_accounts.wf()
        &&& self.in_support.wf()
        &&& self.in_oppose.wf()
        &&& self.name.capacity == c.name_limit as usize
        &&& self.description.capacity == c.description_limit as usize
        &&& self.voter_accounts.capacity == c.account_limit as usize
        &&& self.in_support.capacity == c.account_limit as usize
        &&& self.in_oppose.capacity == c.account_limit as usize
    }

    /// An element-for-element copy of the record.
    pub fn duplicate(&self) -> (r: Proposal)
        ensures
            r@ == self@,
            forall|c: Config| self.caps_ok(c) ==> r.caps_ok(c),
    {
        let r = Proposal {
            owner: self.owner,
            name: self.name.duplicate(),
            description: self.description.duplicate(),
            is_active: self.is_active,
            voter_accounts: self.voter_accounts.duplicate(),
            in_support: self.in_support.duplicate(),
            in_oppose: self.in_oppose.duplicate(),
            status: self.status,
        };
        proof {
            assert(r@ =~= self@);
        }
        r
    }
}

} // verus!
