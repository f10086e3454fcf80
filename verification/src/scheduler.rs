//! The deadline scheduler: a mapping from a future clock tick to the
//! proposal identifier due at that tick.
//!
//! The entries live in a vector of tick/identifier pairs with
//! pairwise-distinct ticks; the scheduler's view is the finite map those
//! pairs denote. A second entry for an already-scheduled tick overwrites the
//! first (last write wins), and looking a tick up never removes its entry.

use vstd::prelude::*;

use crate::types::{ProposalId, Tick};

verus! {

/// The finite map denoted by a sequence of tick/identifier pairs; on a
/// repeated tick the later pair wins, and under [`unique_ticks`] there is none.
pub open spec fn schedule_map(s: Seq<(Tick, ProposalId)>) -> Map<Tick, ProposalId>
    decreases s.len(),
{
    if s.len() == 0 {
        Map::empty()
    } else {
        schedule_map(s.drop_last()).insert(s.last().0, s.last().1)
    }
}

/// No tick occurs in two pairs.
pub open spec fn unique_ticks(s: Seq<(Tick, ProposalId)>) -> bool {
    forall|i: int, j: int| 0 <= i < j < s.len() ==> (#[trigger] s[i]).0 != (#[trigger] s[j]).0
}

/// The denoted map holds a tick exactly when some pair carries it.
pub proof fn lemma_schedule_map_contains(s: Seq<(Tick, ProposalId)>, t: Tick)
    ensures
        schedule_map(s).contains_key(t) <==> exists|i: int| 0 <= i < s.len() && (#[trigger] s[i]).0 == t,
    decreases s.len(),
{
    if s.len() > 0 {
        lemma_schedule_map_contains(s.drop_last(), t);
        if s.last().0 == t {
            assert(s[s.len() - 1].0 == t);
        } else {
            if schedule_map(s).contains_key(t) {
                let i = choose|i: int| 0 <= i < s.drop_last().len() && (#[trigger] s.drop_last()[i]).0 == t;
                assert(s[i].0 == t);
            }
            if exists|i: int| 0 <= i < s.len() && (#[trigger] s[i]).0 == t {
                let i = choose|i: int| 0 <= i < s.len() && (#[trigger] s[i]).0 == t;
                assert(i < s.len() - 1);
                assert(s.drop_last()[i].0 == t);
            }
        }
    }
}

/// Under unique ticks, the denoted map sends a pair's tick to its identifier.
pub proof fn lemma_schedule_map_get(s: Seq<(Tick, ProposalId)>, i: int)
    requires
        unique_ticks(s),
        0 <= i < s.len(),
    ensures
        schedule_map(s).contains_key(s[i].0),
        schedule_map(s)[s[i].0] == s[i].1,
    decreases s.len(),
{
    if i == s.len() - 1 {
        lemma_schedule_map_contains(s, s[i].0);
    } else {
        assert(s[i].0 != s.last().0);
        assert(s.drop_last()[i] == s[i]);
        lemma_schedule_map_get(s.drop_last(), i);
    }
}

/// Replacing the identifier of the pair that carries `t` turns the denoted
/// map into the map with `t` re-bound, and keeps the ticks unique.
pub proof fn lemma_schedule_map_update(s: Seq<(Tick, ProposalId)>, i: int, id: ProposalId)
    requires
        unique_ticks(s),
        0 <= i < s.len(),
    ensures
        unique_ticks(s.update(i, (s[i].0, id))),
        schedule_map(s.update(i, (s[i].0, id))) =~= schedule_map(s).insert(s[i].0, id),
    decreases s.len(),
{
    let t = s[i].0;
    let s2 = s.update(i, (t, id));
    assert(forall|k: int| 0 <= k < s.len() && k != i ==> s2[k] == s[k]);
    if i == s.len() - 1 {
        assert(s2.drop_last() =~= s.drop_last());
        assert(s2.last() == (t, id));
    } else {
        assert(s2.drop_last() =~= s.drop_last().update(i, (t, id)));
        assert(s.drop_last()[i] == s[i]);
        lemma_schedule_map_update(s.drop_last(), i, id);
        assert(s2.last() == s.last());
        assert(t != s.last().0);
    }
}

/// Appending a pair with a tick no pair carries adds exactly that binding,
/// and keeps the ticks unique.
pub proof fn lemma_schedule_map_push(s: Seq<(Tick, ProposalId)>, t: Tick, id: ProposalId)
    requires
        unique_ticks(s),
        forall|i: int| 0 <= i < s.len() ==> (#[trigger] s[i]).0 != t,
    ensures
        unique_ticks(s.push((t, id))),
        schedule_map(s.push((t, id))) =~= schedule_map(s).insert(t, id),
{
    let s2 = s.push((t, id));
    assert(forall|k: int| 0 <= k < s.len() ==> s2[k] == s[k]);
    assert(s2.drop_last() =~= s);
    assert(s2.last() == (t, id));
}

/// The deadline scheduler.
pub struct DeadlineScheduler {
    /// The scheduled pairs, in insertion order, with pairwise-distinct ticks.
    pub entries: Vec<(Tick, ProposalId)>,
}

impl View for DeadlineScheduler {
    type V = Map<Tick, ProposalId>;

    open spec fn view(&self) -> Map<Tick, ProposalId> {
        schedule_map(self.entries@)
    }
}

impl DeadlineScheduler {
    /// Representation invariant: no tick is scheduled twice.
    pub open spec fn wf(&self) -> bool {
        unique_ticks(self.entries@)
    }

    /// An empty schedule.
    pub fn new() -> (r: Self)
        ensures
            r@ =~= Map::<Tick, ProposalId>::empty(),
            r.entries@ == Seq::<(Tick, ProposalId)>::empty(),
            r.wf(),
    {
        DeadlineScheduler { entries: Vec::new() }
    }

    /// Records that `id` is due at `tick`, overwriting whatever the tick held.
    pub fn schedule(&mut self, tick: Tick, id: ProposalId)
        requires
            old(self).wf(),
        ensures
            final(self).wf(),
            final(self)@ =~= old(self)@.insert(tick, id),
    {
        let n = self.entries.len();
        let mut i: usize = 0;
        while i < n
            invariant
                n == self.entries@.len(),
                i <= n,
                self.wf(),
                self.entries@ == old(self).entries@,
                forall|j: int| 0 <= j < i ==> (#[trigger] self.entries@[j]).0 != tick,
            decreases n - i,
        {
            if self.entries[i].0 == tick {
                proof {
                    lemma_schedule_map_update(self.entries@, i as int, id);
                }
                self.entries[i] = (tick, id);
                return;
            }
            i = i + 1;
        }
        proof {
            lemma_schedule_map_push(self.entries@, tick, id);
        }
        self.entries.push((tick, id));
    }

    /// The identifier scheduled for `tick`, if any; the entry stays.
    pub fn due_at(&self, tick: Tick) -> (r: Option<ProposalId>)
        requires
            self.wf(),
        ensures
            match r {
                Some(id) => self@.contains_key(tick) && self@[tick] == id,
                None => !self@.contains_key(tick),
            },
    {
        let n = self.entries.len();
        let mut i: usize = 0;
        while i < n
            invariant
                n == self.entries@.len(),
                i <= n,
                self.wf(),
                forall|j: int| 0 <= j < i ==> (#[trigger] self.entries@[j]).0 != tick,
            decreases n - i,
        {
            if self.entries[i].0 == tick {
                proof {
                    lemma_schedule_map_get(self.entries@, i as int);
                }
                return Some(self.entries[i].1);
            }
            i = i + 1;
        }
        proof {
            lemma_schedule_map_contains(self.entries@, tick);
        }
        None
    }
}

} // verus!
