//! The run-state store: one yield accumulator per run identifier.
//!
//! The store owns every accumulator; callers only ever receive copies
//! (snapshots), never references into the store. A tick is applied while the
//! caller holds exclusive access to the store, so each tick is one atomic
//! transition of the named run's record: no caller can observe a
//! partially-updated summary. An entry is created lazily, zeroed, on the
//! first tick of an unknown run identifier.
//!
//! Note that [`RunStateStore::tick_and_snapshot`] is **not** a read-only
//! query: every call visibly advances the named run's simulated state. A
//! caller that wants to observe without advancing uses
//! [`RunStateStore::peek`].

use rand::Rng;
use vstd::prelude::*;

use crate::accumulator::can_tick;
use crate::accumulator::fresh_model;
use crate::accumulator::tick_spec;
use crate::accumulator::YieldModel;
use crate::accumulator::YieldSummary;

verus! {

/// Relies on rand's `Rng::gen_range` over the half-open range `0..100`:
/// the draw is always below 100.
#[verifier::external_body]
fn draw_tick_value() -> (r: u8)
    ensures
        r < 100,
{
    rand::thread_rng().gen_range(0..100)
}

/// First-match lookup of a run identifier in the store's backing sequence.
spec fn seq_get(s: Seq<(String, YieldSummary)>, id: Seq<char>) -> Option<YieldModel>
    decreases s.len(),
{
    if s.len() == 0 {
        None
    } else if s[0].0@ == id {
        Some(s[0].1@)
    } else {
        seq_get(s.drop_first(), id)
    }
}

proof fn lemma_seq_get_at(s: Seq<(String, YieldSummary)>, id: Seq<char>, i: int)
    requires
        0 <= i < s.len(),
        s[i].0@ == id,
        forall|j: int| 0 <= j < i ==> s[j].0@ != id,
    ensures
        seq_get(s, id) == Some(s[i].1@),
    decreases i,
{
    if i > 0 {
        assert(forall|j: int| 0 <= j < i - 1 ==> s.drop_first()[j] == s[j + 1]);
        lemma_seq_get_at(s.drop_first(), id, i - 1);
    }
}

proof fn lemma_seq_get_none(s: Seq<(String, YieldSummary)>, id: Seq<char>)
    requires
        forall|j: int| 0 <= j < s.len() ==> s[j].0@ != id,
    ensures
        seq_get(s, id) is None,
    decreases s.len(),
{
    if s.len() > 0 {
        lemma_seq_get_none(s.drop_first(), id);
    }
}

proof fn lemma_seq_get_push(s: Seq<(String, YieldSummary)>, p: (String, YieldSummary), id: Seq<char>)
    ensures
        seq_get(s.push(p), id) == (match seq_get(s, id) {
            Some(v) => Some(v),
            None => if p.0@ == id {
                Some(p.1@)
            } else {
                None
            },
        }),
    decreases s.len(),
{
    if s.len() == 0 {
        assert(s.push(p)[0] == p);
        assert(s.push(p).drop_first() =~= Seq::<(String, YieldSummary)>::empty());
        if p.0@ == id {
            assert(seq_get(s.push(p), id) == Some(p.1@));
        } else {
            assert(seq_get(s.push(p), id) == seq_get(s.push(p).drop_first(), id));
            assert(seq_get(s.push(p), id) is None);
        }
    } else {
        assert(s.push(p)[0] == s[0]);
        assert(s.push(p).drop_first() =~= s.drop_first().push(p));
        lemma_seq_get_push(s.drop_first(), p, id);
        if s[0].0@ == id {
            assert(seq_get(s.push(p), id) == Some(s[0].1@));
        } else {
            assert(seq_get(s.push(p), id) == seq_get(s.drop_first().push(p), id));
        }
    }
}

proof fn lemma_seq_get_update(
    s: Seq<(String, YieldSummary)>,
    i: int,
    p: (String, YieldSummary),
    id: Seq<char>,
)
    requires
        0 <= i < s.len(),
        p.0@ == s[i].0@,
        forall|j: int| 0 <= j < i ==> s[j].0@ != s[i].0@,
    ensures
        seq_get(s.update(i, p), id) == (if id == p.0@ {
            Some(p.1@)
        } else {
            seq_get(s, id)
        }),
    decreases i,
{
    let t = s.update(i, p);
    if i == 0 {
        assert(t[0] == p);
        if id != p.0@ {
            assert(t.drop_first() =~= s.drop_first());
        }
    } else {
        assert(t[0] == s[0]);
        if id != s[0].0@ {
            assert(t.drop_first() =~= s.drop_first().update(i - 1, p));
            assert(forall|j: int| 0 <= j < i - 1 ==> s.drop_first()[j] == s[j + 1]);
            lemma_seq_get_update(s.drop_first(), i - 1, p, id);
        }
    }
}

/// Owns one [`YieldSummary`] accumulator per run identifier.
pub struct RunStateStore {
    runs: Vec<(String, YieldSummary)>,
}

impl RunStateStore {
    /// The state recorded for the given run identifier, if any run of that
    /// name has ever ticked.
    pub closed spec fn contents(self, id: Seq<char>) -> Option<YieldModel> {
        seq_get(self.runs@, id)
    }

    /// The state the next tick of the given run starts from: the recorded
    /// state, or the zeroed fresh state for an unknown identifier.
    pub open spec fn model_of(self, id: Seq<char>) -> YieldModel {
        match self.contents(id) {
            Some(m) => m,
            None => fresh_model(),
        }
    }

    /// Whether one more tick of the given run fits in its counters,
    /// whatever the draw.
    pub open spec fn run_can_tick(self, id: Seq<char>) -> bool {
        can_tick(self.model_of(id))
    }

    /// An empty store: no run has ever ticked.
    pub fn new() -> (s: RunStateStore)
        ensures
            forall|id: Seq<char>| s.contents(id) is None,
    {
        let s = RunStateStore { runs: Vec::new() };
        proof {
            assert forall|id: Seq<char>| s.contents(id) is None by {
                lemma_seq_get_none(s.runs@, id);
            }
        }
        s
    }

    /// Index of the run's entry, if present: the contract ties the result to
    /// the recorded contents.
    fn find(&self, run_id: &String) -> (idx: Option<usize>)
        ensures
            match idx {
                Some(i) => {
                    &&& i < self.runs@.len()
                    &&& self.runs@[i as int].0@ == run_id@
                    &&& forall|j: int| 0 <= j < i ==> self.runs@[j].0@ != run_id@
                    &&& self.contents(run_id@) == Some(self.runs@[i as int].1@)
                },
                None => {
                    &&& forall|j: int| 0 <= j < self.runs@.len() ==> self.runs@[j].0@ != run_id@
                    &&& self.contents(run_id@) is None
                },
            },
    {
        let n: usize = self.runs.len();
        let mut i: usize = 0;
        while i < n
            invariant
                n == self.runs@.len(),
                i <= n,
                forall|j: int| 0 <= j < i ==> self.runs@[j].0@ != run_id@,
            decreases n - i,
        {
            if self.runs[i].0 == *run_id {
                proof {
                    lemma_seq_get_at(self.runs@, run_id@, i as int);
                }
                return Some(i);
            }
            i = i + 1;
        }
        proof {
            lemma_seq_get_none(self.runs@, run_id@);
        }
        None
    }

    /// Whether one more tick of the named run fits in its counters; the
    /// executable mirror of [`RunStateStore::run_can_tick`].
    pub fn has_headroom(&self, run_id: &String) -> (b: bool)
        ensures
            b == self.run_can_tick(run_id@),
    {
        match self.find(run_id) {
            Some(i) => self.runs[i].1.headroom(),
            None => true,
        }
    }

    /// The latest snapshot of the named run, without advancing it, or
    /// nothing if the run is unknown.
    pub fn peek(&self, run_id: &String) -> (r: Option<YieldSummary>)
        ensures
            match r {
                Some(snap) => self.contents(run_id@) == Some(snap@),
                None => self.contents(run_id@) is None,
            },
    {
        match self.find(run_id) {
            Some(i) => Some(self.runs[i].1),
            None => None,
        }
    }

    /// Apply one tick with the given draw to the named run (creating it,
    /// zeroed, if absent) and return a copy of the resulting state.
    ///
    /// The whole transition is one atomic step of this run's record, and no
    /// other run's record changes at all.
    pub fn apply_tick(&mut self, run_id: &String, draw: u8) -> (snap: YieldSummary)
        requires
            draw < 100,
            old(self).run_can_tick(run_id@),
        ensures
            snap@ == tick_spec(old(self).model_of(run_id@), draw as int),
            final(self).contents(run_id@) == Some(snap@),
            forall|other: Seq<char>|
                other != run_id@ ==> final(self).contents(other) == old(self).contents(other),
    {
        match self.find(run_id) {
            Some(i) => {
                let ghost prior = self.runs@;
                let mut acc = self.runs[i].1;
                acc.tick(draw);
                self.runs[i].1 = acc;
                proof {
                    assert(self.runs@ =~= prior.update(i as int, (prior[i as int].0, acc)));
                    lemma_seq_get_update(prior, i as int, (prior[i as int].0, acc), run_id@);
                    assert forall|other: Seq<char>| other != run_id@ implies self.contents(other)
                        == seq_get(prior, other) by {
                        lemma_seq_get_update(prior, i as int, (prior[i as int].0, acc), other);
                    }
                }
                acc
            },
            None => {
                let ghost prior = self.runs@;
                let mut acc = YieldSummary::new();
                acc.tick(draw);
                let key = run_id.clone();
                let ghost pushed = (key, acc);
                self.runs.push((key, acc));
                proof {
                    lemma_seq_get_none(prior, run_id@);
                    lemma_seq_get_push(prior, pushed, run_id@);
                    assert forall|other: Seq<char>| other != run_id@ implies self.contents(other)
                        == seq_get(prior, other) by {
                        lemma_seq_get_push(prior, pushed, other);
                    }
                }
                acc
            },
        }
    }

    /// Draw one random value and apply one tick to the named run, returning
    /// a copy of the resulting state.
    ///
    /// **Not** a read-only query: every call advances the run. The draw is
    /// random, so the contract promises only that the transition is the tick
    /// rule under *some* draw below 100.
    pub fn tick_and_snapshot(&mut self, run_id: &String) -> (snap: YieldSummary)
        requires
            old(self).run_can_tick(run_id@),
        ensures
            exists|draw: int|
                0 <= draw < 100 && snap@ == tick_spec(old(self).model_of(run_id@), draw),
            final(self).contents(run_id@) == Some(snap@),
            forall|other: Seq<char>|
                other != run_id@ ==> final(self).contents(other) == old(self).contents(other),
    {
        let draw = draw_tick_value();
        let snap = self.apply_tick(run_id, draw);
        proof {
            assert(snap@ == tick_spec(old(self).model_of(run_id@), draw as int));
        }
        snap
    }
}

} // verus!
