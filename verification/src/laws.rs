//! The laws of the governance core, proved once and for all over the
//! mathematical model in [`crate::model`]: the invariant is preserved by
//! every transition, created identifiers are fresh, each rejection happens
//! exactly on the inputs its error names, and resolution tallies correctly.

use vstd::prelude::*;

use crate::model::{create_result, create_step, fresh_record, initial_state, inv, record_wf,
    resolve_step, tally, vote_result, vote_step, voted_record, GovState};
use crate::types::{AccountId, Config, Error, ProposalId, Tick, Vote};

verus! {

/// A pushed sequence holds exactly the old elements and the new one.
proof fn lemma_push_contains<A>(s: Seq<A>, v: A, x: A)
    ensures
        s.push(v).contains(x) <==> (s.contains(x) || x == v),
{
    if s.push(v).contains(x) {
        let i = choose|i: int| 0 <= i < s.push(v).len() && s.push(v)[i] == x;
        if i < s.len() {
            assert(s[i] == x);
        }
    }
    if s.contains(x) {
        let i = choose|i: int| 0 <= i < s.len() && s[i] == x;
        assert(s.push(v)[i] == x);
    }
    if x == v {
        assert(s.push(v)[s.len() as int] == x);
    }
}

/// Pushing an element a duplicate-free sequence does not hold keeps it
/// duplicate-free.
proof fn lemma_push_no_duplicates<A>(s: Seq<A>, v: A)
    requires
        s.no_duplicates(),
        !s.contains(v),
    ensures
        s.push(v).no_duplicates(),
{
    assert forall|i: int, j: int| 0 <= i < s.push(v).len() && 0 <= j < s.push(v).len() && i != j
        implies s.push(v)[i] != s.push(v)[j] by {
        if i < s.len() && j < s.len() {
            assert(s[i] != s[j]);
        } else if i < s.len() {
            assert(s[i] != v);
        } else if j < s.len() {
            assert(s[j] != v);
        }
    }
}

/// The state the core starts in satisfies the governance invariant.
pub proof fn lemma_initial_inv(config: Config)
    requires
        config.wf(),
    ensures
        inv(initial_state(config)),
{
}

/// Creation preserves the governance invariant.
pub proof fn lemma_create_preserves_inv(s: GovState, owner: AccountId, name: Seq<u8>,
    description: Seq<u8>, duration: u32, now: Tick)
    requires
        inv(s),
    ensures
        inv(create_step(s, owner, name, description, duration, now)),
{
    if create_result(s, name, description, duration) is Ok {
        let s2 = create_step(s, owner, name, description, duration, now);
        assert(record_wf(fresh_record(owner, name, description), s.config));
        assert forall|t: Tick| #[trigger] s2.schedule.contains_key(t)
            implies s2.proposals.contains_key(s2.schedule[t]) by {
            if t != crate::model::deadline_of(s, duration, now) {
                assert(s.schedule.contains_key(t));
            }
        }
    }
}

/// A successful vote preserves the governance invariant: this is what keeps
/// the voter list the disjoint union of the support and oppose lists, each
/// account voting at most once, within the account limit, on every reachable
/// state. A failed vote changes nothing, so it preserves it trivially.
pub proof fn lemma_vote_preserves_inv(s: GovState, voter: AccountId, id: ProposalId, choice: Vote)
    requires
        inv(s),
    ensures
        inv(vote_step(s, voter, id, choice)),
{
    if vote_result(s, voter, id) is Ok {
        let p = s.proposals[id];
        let p2 = voted_record(p, voter, choice);
        assert(!p.in_support.contains(voter));
        assert(!p.in_oppose.contains(voter));
        lemma_push_no_duplicates(p.voter_accounts, voter);
        assert forall|a: AccountId| true implies
            (p2.voter_accounts.contains(a) <==> p2.in_support.contains(a)
                || p2.in_oppose.contains(a)) by {
            lemma_push_contains(p.voter_accounts, voter, a);
            match choice {
                Vote::YES => lemma_push_contains(p.in_support, voter, a),
                Vote::NO => lemma_push_contains(p.in_oppose, voter, a),
            }
        }
        assert forall|a: AccountId| true implies
            !(p2.in_support.contains(a) && p2.in_oppose.contains(a)) by {
            match choice {
                Vote::YES => lemma_push_contains(p.in_support, voter, a),
                Vote::NO => lemma_push_contains(p.in_oppose, voter, a),
            }
        }
        match choice {
            Vote::YES => lemma_push_no_duplicates(p.in_support, voter),
            Vote::NO => lemma_push_no_duplicates(p.in_oppose, voter),
        }
        lemma_push_contains(p.voter_accounts, voter, p.owner);
        assert(record_wf(p2, s.config));
    }
}

/// Resolution preserves the governance invariant.
pub proof fn lemma_resolve_preserves_inv(s: GovState, now: Tick)
    requires
        inv(s),
    ensures
        inv(resolve_step(s, now)),
{
}

/// For every valid creation request — duration within `[1, duration_limit]`,
/// name and description within their capacities — on a state whose
/// identifier counter is not exhausted, creation succeeds; the returned
/// identifier was never used by an earlier proposal; and the record stored
/// under it starts active, voting in progress, with no votes at all.
pub proof fn lemma_create_succeeds_with_fresh_id(s: GovState, owner: AccountId, name: Seq<u8>,
    description: Seq<u8>, duration: u32, now: Tick)
    requires
        inv(s),
        1 <= duration <= s.config.duration_limit,
        name.len() <= s.config.name_limit,
        description.len() <= s.config.description_limit,
        s.next_id < u64::MAX,
    ensures
        create_result(s, name, description, duration) == Ok::<ProposalId, Error>(s.next_id),
        !s.proposals.contains_key(s.next_id),
        forall|id: ProposalId| #[trigger] s.proposals.contains_key(id) ==> id < s.next_id,
        ({
            let p = create_step(s, owner, name, description, duration, now)
                .proposals[s.next_id];
            &&& p.is_active == true
            &&& p.status is VotingInProgress
            &&& p.owner == owner
            &&& p.voter_accounts.len() == 0
            &&& p.in_support.len() == 0
            &&& p.in_oppose.len() == 0
        }),
{
}

/// A creation request whose duration is zero or exceeds the configured limit
/// is rejected with `InvalidProposalDuration` and leaves the state — stored
/// proposals, schedule, identifier counter and event log — untouched, so no
/// identifier is consumed.
pub proof fn lemma_invalid_duration_rejected(s: GovState, owner: AccountId, name: Seq<u8>,
    description: Seq<u8>, duration: u32, now: Tick)
    requires
        duration == 0 || duration > s.config.duration_limit,
    ensures
        create_result(s, name, description, duration)
            == Err::<ProposalId, Error>(Error::InvalidProposalDuration),
        create_step(s, owner, name, description, duration, now) == s,
{
}

/// On every well-formed state, each stored proposal's voter list is the
/// disjoint union of its support and oppose lists — every voter is on
/// exactly one side — and it never exceeds the account limit.
pub proof fn lemma_voters_partition(s: GovState, id: ProposalId)
    requires
        inv(s),
        s.proposals.contains_key(id),
    ensures
        ({
            let p = s.proposals[id];
            &&& forall|a: AccountId| p.voter_accounts.contains(a)
                <==> p.in_support.contains(a) || p.in_oppose.contains(a)
            &&& forall|a: AccountId| !(p.in_support.contains(a) && p.in_oppose.contains(a))
            &&& p.voter_accounts.len() == p.in_support.len() + p.in_oppose.len()
            &&& p.voter_accounts.no_duplicates()
            &&& p.voter_accounts.len() <= s.config.account_limit
        }),
{
}

/// A vote by the owner on their own stored proposal always fails and
/// changes nothing, whatever state the proposal is in and whatever votes
/// have been cast: with `OwnerCannotVote` while the proposal is active, and
/// with the earlier-checked `ProposalNotActive` once it has been resolved.
pub proof fn lemma_owner_vote_rejected(s: GovState, id: ProposalId, choice: Vote)
    requires
        inv(s),
        s.proposals.contains_key(id),
    ensures
        vote_result(s, s.proposals[id].owner, id) == Err::<(), Error>(
            if s.proposals[id].is_active {
                Error::OwnerCannotVote
            } else {
                Error::ProposalNotActive
            },
        ),
        vote_step(s, s.proposals[id].owner, id, choice) == s,
{
}

/// A second vote by the same non-owner account on the same proposal is
/// rejected with `DuplicateVote` and changes nothing.
pub proof fn lemma_duplicate_vote_rejected(s: GovState, voter: AccountId, id: ProposalId,
    choice: Vote)
    requires
        inv(s),
        s.proposals.contains_key(id),
        s.proposals[id].is_active,
        voter != s.proposals[id].owner,
        s.proposals[id].voter_accounts.contains(voter),
    ensures
        vote_result(s, voter, id) == Err::<(), Error>(Error::DuplicateVote),
        vote_step(s, voter, id, choice) == s,
{
}

/// Once the configured limit of distinct non-owner accounts have voted on a
/// proposal, the next vote by a further account is rejected with
/// `AccountLimitReached` and changes nothing.
pub proof fn lemma_account_limit_rejected(s: GovState, voter: AccountId, id: ProposalId,
    choice: Vote)
    requires
        inv(s),
        s.proposals.contains_key(id),
        s.proposals[id].is_active,
        voter != s.proposals[id].owner,
        !s.proposals[id].voter_accounts.contains(voter),
        s.proposals[id].voter_accounts.len() == s.config.account_limit,
    ensures
        vote_result(s, voter, id) == Err::<(), Error>(Error::AccountLimitReached),
        vote_step(s, voter, id, choice) == s,
{
}

/// Any vote on a proposal whose deadline tick has been processed is rejected
/// with `ProposalNotActive`, whoever votes and whatever they choose, and
/// changes nothing.
pub proof fn lemma_vote_after_resolution_rejected(s: GovState, now: Tick, voter: AccountId,
    choice: Vote)
    requires
        inv(s),
        s.schedule.contains_key(now),
    ensures
        ({
            let s2 = resolve_step(s, now);
            let id = s.schedule[now];
            &&& vote_result(s2, voter, id) == Err::<(), Error>(Error::ProposalNotActive)
            &&& vote_step(s2, voter, id, choice) == s2
        }),
{
    let s2 = resolve_step(s, now);
    let id = s.schedule[now];
    assert(s2.proposals.contains_key(id));
    assert(!s2.proposals[id].is_active);
}

/// Processing a due proposal's deadline tick closes it with the tallied
/// status: `Accepted` exactly when strictly more accounts support than
/// oppose, `Rejected` on a tie, a minority, or no votes at all.
pub proof fn lemma_resolution_tallies(s: GovState, now: Tick)
    requires
        inv(s),
        s.schedule.contains_key(now),
    ensures
        ({
            let id = s.schedule[now];
            let p = s.proposals[id];
            let p2 = resolve_step(s, now).proposals[id];
            &&& p2.status == tally(p)
            &&& (p2.status is Accepted <==> p.in_support.len() > p.in_oppose.len())
            &&& (p2.status is Rejected <==> p.in_support.len() <= p.in_oppose.len())
            &&& p2.is_active == false
            &&& p2.voter_accounts == p.voter_accounts
            &&& p2.in_support == p.in_support
            &&& p2.in_oppose == p.in_oppose
        }),
{
}

/// A tick with nothing scheduled leaves the state untouched.
pub proof fn lemma_resolve_noop(s: GovState, now: Tick)
    requires
        !s.schedule.contains_key(now),
    ensures
        resolve_step(s, now) == s,
{
}

} // verus!
