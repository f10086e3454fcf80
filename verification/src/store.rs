//! The proposal store: a mapping from proposal identifier to proposal
//! record, together with the monotonic identifier counter.
//!
//! The records live in a vector of key/record pairs with pairwise-distinct
//! keys; the store's view is the finite map those pairs denote, and every
//! operation is specified against that map.

use vstd::prelude::*;

use crate::types::{Error, Proposal, ProposalId, ProposalView};

verus! {

/// The finite map denoted by a sequence of key/record pairs; on a repeated
/// key the later pair wins, and under [`unique_keys`] there is none.
pub open spec fn store_map(s: Seq<(ProposalId, Proposal)>) -> Map<ProposalId, ProposalView>
    decreases s.len(),
{
    if s.len() == 0 {
        Map::empty()
    } else {
        store_map(s.drop_last()).insert(s.last().0, s.last().1@)
    }
}

/// No proposal identifier occurs in two pairs.
pub open spec fn unique_keys(s: Seq<(ProposalId, Proposal)>) -> bool {
    forall|i: int, j: int| 0 <= i < j < s.len() ==> (#[trigger] s[i]).0 != (#[trigger] s[j]).0
}

/// The denoted map holds a key exactly when some pair carries it.
pub proof fn lemma_store_map_contains(s: Seq<(ProposalId, Proposal)>, id: ProposalId)
    ensures
        store_map(s).contains_key(id) <==> exists|i: int| 0 <= i < s.len() && (#[trigger] s[i]).0 == id,
    decreases s.len(),
{
    if s.len() > 0 {
        lemma_store_map_contains(s.drop_last(), id);
        if s.last().0 == id {
            assert(s[s.len() - 1].0 == id);
        } else {
            if store_map(s).contains_key(id) {
                let i = choose|i: int| 0 <= i < s.drop_last().len() && (#[trigger] s.drop_last()[i]).0 == id;
                assert(s[i].0 == id);
            }
            if exists|i: int| 0 <= i < s.len() && (#[trigger] s[i]).0 == id {
                let i = choose|i: int| 0 <= i < s.len() && (#[trigger] s[i]).0 == id;
                assert(i < s.len() - 1);
                assert(s.drop_last()[i].0 == id);
            }
        }
    }
}

/// Under unique keys, the denoted map sends a pair's key to its record.
pub proof fn lemma_store_map_get(s: Seq<(ProposalId, Proposal)>, i: int)
    requires
        unique_keys(s),
        0 <= i < s.len(),
    ensures
        store_map(s).contains_key(s[i].0),
        store_map(s)[s[i].0] == s[i].1@,
    decreases s.len(),
{
    if i == s.len() - 1 {
        lemma_store_map_contains(s, s[i].0);
    } else {
        assert(s[i].0 != s.last().0);
        assert(s.drop_last()[i] == s[i]);
        lemma_store_map_get(s.drop_last(), i);
    }
}

/// Replacing the record of the pair that carries `id` turns the denoted map
/// into the map with `id` re-bound, and keeps the keys unique.
pub proof fn lemma_store_map_update(s: Seq<(ProposalId, Proposal)>, i: int, p: Proposal)
    requires
        unique_keys(s),
        0 <= i < s.len(),
    ensures
        unique_keys(s.update(i, (s[i].0, p))),
        store_map(s.update(i, (s[i].0, p))) =~= store_map(s).insert(s[i].0, p@),
    decreases s.len(),
{
    let id = s[i].0;
    let s2 = s.update(i, (id, p));
    assert(forall|k: int| 0 <= k < s.len() && k != i ==> s2[k] == s[k]);
    if i == s.len() - 1 {
        assert(s2.drop_last() =~= s.drop_last());
        assert(s2.last() == (id, p));
    } else {
        assert(s2.drop_last() =~= s.drop_last().update(i, (id, p)));
        assert(s.drop_last()[i] == s[i]);
        lemma_store_map_update(s.drop_last(), i, p);
        assert(s2.last() == s.last());
        assert(id != s.last().0);
    }
}

/// Appending a pair with a key no pair carries adds exactly that binding,
/// and keeps the keys unique.
pub proof fn lemma_store_map_push(s: Seq<(ProposalId, Proposal)>, id: ProposalId, p: Proposal)
    requires
        unique_keys(s),
        forall|i: int| 0 <= i < s.len() ==> (#[trigger] s[i]).0 != id,
    ensures
        unique_keys(s.push((id, p))),
        store_map(s.push((id, p))) =~= store_map(s).insert(id, p@),
{
    let s2 = s.push((id, p));
    assert(forall|k: int| 0 <= k < s.len() ==> s2[k] == s[k]);
    assert(s2.drop_last() =~= s);
    assert(s2.last() == (id, p));
}

/// The proposal store: records keyed by identifier, plus the counter that
/// yields the identifier of the next proposal.
pub struct ProposalStore {
    /// The stored pairs, in insertion order, with pairwise-distinct keys.
    pub entries: Vec<(ProposalId, Proposal)>,
    /// The identifier the next successful allocation returns.
    pub next: ProposalId,
}

impl View for ProposalStore {
    type V = Map<ProposalId, ProposalView>;

    open spec fn view(&self) -> Map<ProposalId, ProposalView> {
        store_map(self.entries@)
    }
}

impl ProposalStore {
    /// Representation invariant: no identifier is stored twice.
    pub open spec fn wf(&self) -> bool {
        unique_keys(self.entries@)
    }

    /// An empty store whose first allocated identifier is 1.
    pub fn new() -> (r: Self)
        ensures
            r@ =~= Map::<ProposalId, ProposalView>::empty(),
            r.next == 1,
            r.entries@ == Seq::<(ProposalId, Proposal)>::empty(),
            r.wf(),
    {
        ProposalStore { entries: Vec::new(), next: 1 }
    }

    /// Position of the pair carrying `id`, if one is stored.
    pub fn index_of(&self, id: ProposalId) -> (r: Option<usize>)
        ensures
            match r {
                Some(i) => i < self.entries@.len() && self.entries@[i as int].0 == id
                    && self@.contains_key(id),
                None => !self@.contains_key(id),
            },
    {
        proof {
            lemma_store_map_contains(self.entries@, id);
        }
        let n = self.entries.len();
        let mut i: usize = 0;
        while i < n
            invariant
                n == self.entries@.len(),
                i <= n,
                forall|j: int| 0 <= j < i ==> (#[trigger] self.entries@[j]).0 != id,
            decreases n - i,
        {
            if self.entries[i].0 == id {
                proof {
                    lemma_store_map_contains(self.entries@, id);
                    assert((self.entries@[i as int]).0 == id);
                }
                return Some(i);
            }
            i = i + 1;
        }
        None
    }

    /// Stores `record` under `id`, replacing whatever the identifier held.
    pub fn insert(&mut self, id: ProposalId, record: Proposal)
        requires
            old(self).wf(),
        ensures
            final(self).wf(),
            final(self)@ =~= old(self)@.insert(id, record@),
            final(self).next == old(self).next,
            final(self).entries@.len() <= old(self).entries@.len() + 1,
            forall|i: int| 0 <= i < final(self).entries@.len()
                ==> (#[trigger] final(self).entries@[i]).1 == record
                    || old(self).entries@.contains(final(self).entries@[i]),
    {
        let r = self.index_of(id);
        match r {
            Some(i) => {
                proof {
                    lemma_store_map_update(self.entries@, i as int, record);
                }
                self.entries[i] = (id, record);
            },
            None => {
                proof {
                    lemma_store_map_contains(self.entries@, id);
                    lemma_store_map_push(self.entries@, id, record);
                }
                self.entries.push((id, record));
            },
        }
    }

    /// Returns the next free identifier and advances the counter; once the
    /// counter has reached the largest representable identifier no further
    /// identifier exists and the allocation fails, leaving the store as it
    /// was. Identifiers are never reused.
    pub fn next_id(&mut self) -> (r: Result<ProposalId, Error>)
        ensures
            final(self).entries == old(self).entries,
            old(self).next < u64::MAX ==> r == Ok::<ProposalId, Error>(old(self).next)
                && final(self).next == old(self).next + 1,
            old(self).next == u64::MAX ==> r == Err::<ProposalId, Error>(Error::Overflow)
                && final(self).next == old(self).next,
    {
        if self.next == u64::MAX {
            Err(Error::Overflow)
        } else {
            let id = self.next;
            self.next = self.next + 1;
            Ok(id)
        }
    }
}

} // verus!
