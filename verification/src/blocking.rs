//! The blocking-work bridge: a bounded pool of worker threads runs
//! synchronous handler code off the asynchronous reactor.
//!
//! Submissions beyond the worker count wait in a queue — they are never
//! refused for being over capacity. A panic inside one unit is caught at the
//! pool boundary and delivered to that unit's caller alone; the worker
//! thread keeps serving. On shutdown the pool stops accepting submissions,
//! drops only the units that never started, and lets running units finish.
use vstd::prelude::*;

verus! {

/// How a submitted unit was placed: handed to a free worker at once, or
/// queued until one frees up.
#[derive(Clone, Copy, Debug, PartialEq, Eq, Structural)]
pub enum Submission {
    /// A worker was free; the unit runs now.
    Started(u64),
    /// Every worker was busy; the unit waits its turn.
    Queued(u64),
}

/// Why a submission was refused.
#[derive(Clone, Copy, Debug, PartialEq, Eq, Structural)]
pub enum PoolError {
    /// The pool no longer accepts work: shutdown has begun.
    ShutDown,
}

/// The outcome delivered to the caller awaiting one unit.
#[derive(Clone, Copy, Debug, PartialEq, Eq, Structural)]
pub enum UnitResult {
    /// The unit ran to completion.
    Completed(u64),
    /// The unit panicked; the fault is reported to this caller only.
    Panicked(u64),
}

/// No two units in a trace share an identifier.
pub open spec fn units_distinct(s: Seq<u64>) -> bool {
    forall|i: int, j: int| 0 <= i < j < s.len() ==> s[i] != s[j]
}

/// The two traces share no identifier.
pub open spec fn units_disjoint(a: Seq<u64>, b: Seq<u64>) -> bool {
    forall|i: int, j: int| 0 <= i < a.len() && 0 <= j < b.len() ==> a[i] != b[j]
}

/// The pool's dispatch state, as contracts see it.
pub struct PoolState {
    /// The fixed worker count.
    pub workers: int,
    /// Units currently executing, oldest first.
    pub running: Seq<u64>,
    /// Units waiting for a worker, oldest first.
    pub queue: Seq<u64>,
    /// The identifier the next submission will receive.
    pub next_id: int,
    /// Whether submissions are still accepted.
    pub accepting: bool,
}

impl PoolState {
    /// Every unit's identifier was assigned by this pool.
    pub open spec fn ids_bounded(&self) -> bool {
        &&& forall|i: int| 0 <= i < self.running.len() ==> #[trigger] self.running[i] < self.next_id
        &&& forall|i: int| 0 <= i < self.queue.len() ==> #[trigger] self.queue[i] < self.next_id
    }

    /// The pool's invariant: the worker ceiling is never exceeded, a unit
    /// waits only while every worker is busy, and identifiers are unique.
    pub open spec fn wf(&self) -> bool {
        &&& self.workers >= 1
        &&& 0 <= self.next_id
        &&& self.running.len() <= self.workers
        &&& self.queue.len() > 0 ==> self.running.len() == self.workers
        &&& units_distinct(self.running)
        &&& units_distinct(self.queue)
        &&& units_disjoint(self.running, self.queue)
        &&& self.ids_bounded()
    }
}

/// What submitting one unit does to the pool: refused only after shutdown,
/// started when a worker is free, queued otherwise — never refused for
/// being over capacity.
pub open spec fn spec_submit(s: PoolState) -> (PoolState, Result<Submission, PoolError>) {
    if !s.accepting {
        (s, Err(PoolError::ShutDown))
    } else if s.running.len() < s.workers {
        (
            PoolState {
                running: s.running.push(s.next_id as u64),
                next_id: s.next_id + 1,
                ..s
            },
            Ok(Submission::Started(s.next_id as u64)),
        )
    } else {
        (
            PoolState { queue: s.queue.push(s.next_id as u64), next_id: s.next_id + 1, ..s },
            Ok(Submission::Queued(s.next_id as u64)),
        )
    }
}

/// What finishing the running unit at `idx` does to the pool: the outcome —
/// completion or a caught panic — is delivered for that unit alone, its
/// worker picks up the oldest queued unit if one waits, and every other
/// unit is preserved in order.
pub open spec fn spec_complete(s: PoolState, idx: int, panicked: bool) -> (
    PoolState,
    UnitResult,
    Option<u64>,
) {
    let unit = s.running[idx];
    let outcome = if panicked {
        UnitResult::Panicked(unit)
    } else {
        UnitResult::Completed(unit)
    };
    if s.queue.len() > 0 {
        (
            PoolState {
                running: s.running.remove(idx).push(s.queue[0]),
                queue: s.queue.drop_first(),
                ..s
            },
            outcome,
            Some(s.queue[0]),
        )
    } else {
        (PoolState { running: s.running.remove(idx), ..s }, outcome, Option::<u64>::None)
    }
}

/// What beginning shutdown does to the pool: no further submissions, the
/// never-started units are dropped, and the running units are left to
/// finish.
pub open spec fn spec_begin_shutdown(s: PoolState) -> (PoolState, Seq<u64>) {
    (PoolState { queue: Seq::empty(), accepting: false, ..s }, s.queue)
}

/// Submitting preserves the pool invariant.
pub proof fn lemma_submit_preserves_wf(s: PoolState)
    requires
        s.wf(),
        s.next_id < u64::MAX,
    ensures
        spec_submit(s).0.wf(),
{
    let s2 = spec_submit(s).0;
    if s.accepting {
        let nid = s.next_id as u64;
        if s.running.len() < s.workers {
            assert(forall|i: int|
                0 <= i < s2.running.len() ==> #[trigger] s2.running[i] == if i < s.running.len() {
                    s.running[i]
                } else {
                    nid
                });
        } else {
            assert(forall|i: int|
                0 <= i < s2.queue.len() ==> #[trigger] s2.queue[i] == if i < s.queue.len() {
                    s.queue[i]
                } else {
                    nid
                });
        }
    }
}

/// Completing a unit preserves the pool invariant.
pub proof fn lemma_complete_preserves_wf(s: PoolState, idx: int, panicked: bool)
    requires
        s.wf(),
        0 <= idx < s.running.len(),
    ensures
        spec_complete(s, idx, panicked).0.wf(),
{
    let s2 = spec_complete(s, idx, panicked).0;
    assert forall|i: int, j: int| 0 <= i < j < s2.running.len() implies s2.running[i]
        != s2.running[j] by {
        assert(forall|k: int|
            0 <= k < s.running.remove(idx).len() ==> #[trigger] s.running.remove(idx)[k]
                == if k < idx {
                    s.running[k]
                } else {
                    s.running[k + 1]
                });
    }
    assert(s2.ids_bounded()) by {
        assert(forall|k: int|
            0 <= k < s.running.remove(idx).len() ==> #[trigger] s.running.remove(idx)[k]
                == if k < idx {
                    s.running[k]
                } else {
                    s.running[k + 1]
                });
    }
    assert(units_disjoint(s2.running, s2.queue)) by {
        assert(forall|k: int|
            0 <= k < s.running.remove(idx).len() ==> #[trigger] s.running.remove(idx)[k]
                == if k < idx {
                    s.running[k]
                } else {
                    s.running[k + 1]
                });
    }
}

/// Blocking-pool law: when every worker is busy, one more submission is
/// queued, not refused; and when a running unit panics, the caught fault is
/// delivered as the result of that unit alone, while every other running or
/// queued unit — including the one just queued — is preserved and the
/// oldest waiter takes the freed worker.
pub proof fn lemma_overload_waits_and_panic_is_isolated(s: PoolState, idx: int)
    requires
        s.wf(),
        s.accepting,
        s.running.len() == s.workers,
        s.next_id < u64::MAX,
        0 <= idx < s.running.len(),
    ensures
        ({
            let (s1, placed) = spec_submit(s);
            let (s2, outcome, started) = spec_complete(s1, idx, true);
            &&& placed == Ok::<Submission, PoolError>(Submission::Queued(s.next_id as u64))
            &&& outcome == UnitResult::Panicked(s.running[idx])
            &&& started == Some(s1.queue[0])
            &&& s2.wf()
            &&& s2.running.to_multiset() == s1.running.to_multiset().remove(
                s.running[idx],
            ).insert(s1.queue[0])
            &&& s2.queue =~= s1.queue.drop_first()
        }),
{
    let (s1, placed) = spec_submit(s);
    lemma_submit_preserves_wf(s);
    lemma_complete_preserves_wf(s1, idx, true);
    let (s2, outcome, started) = spec_complete(s1, idx, true);
    assert(s1.queue.len() > 0);
    let removed = s1.running.remove(idx);
    s1.running.to_multiset_ensures();
    removed.to_multiset_ensures();
    assert(removed.to_multiset() =~= s1.running.to_multiset().remove(s1.running[idx]));
    assert(s2.running =~= removed.push(s1.queue[0]));
    assert(s2.running.to_multiset() =~= removed.to_multiset().insert(s1.queue[0]));
}

/// The bounded worker pool's dispatch state.
///
/// The worker threads themselves and the per-submission completion channels
/// live with the runtime outside this crate; they report back here which
/// unit finished and whether it panicked, and are told which queued unit to
/// start next.
pub struct ThreadPool {
    workers: usize,
    running: Vec<u64>,
    queue: Vec<u64>,
    next_id: u64,
    accepting: bool,
}

impl ThreadPool {
    /// The dispatch state the contracts speak of.
    pub closed spec fn model(&self) -> PoolState {
        PoolState {
            workers: self.workers as int,
            running: self.running@,
            queue: self.queue@,
            next_id: self.next_id as int,
            accepting: self.accepting,
        }
    }

    /// An empty pool with a fixed, positive worker count.
    pub fn new(workers: usize) -> (r: ThreadPool)
        requires
            workers >= 1,
        ensures
            r.model() == (PoolState {
                workers: workers as int,
                running: Seq::empty(),
                queue: Seq::empty(),
                next_id: 0,
                accepting: true,
            }),
            r.model().wf(),
    {
        let r = ThreadPool {
            workers,
            running: Vec::new(),
            queue: Vec::new(),
            next_id: 0,
            accepting: true,
        };
        proof {
            assert(r.model().running =~= Seq::<u64>::empty());
            assert(r.model().queue =~= Seq::<u64>::empty());
        }
        r
    }

    /// The fixed worker count.
    pub fn workers(&self) -> (r: usize)
        ensures
            r == self.model().workers,
    {
        self.workers
    }

    /// How many units are executing right now.
    pub fn in_flight(&self) -> (r: usize)
        ensures
            r == self.model().running.len(),
    {
        self.running.len()
    }

    /// How many units wait for a worker.
    pub fn queued(&self) -> (r: usize)
        ensures
            r == self.model().queue.len(),
    {
        self.queue.len()
    }

    /// Submits one unit of blocking work.
    ///
    /// Refused only after shutdown began; otherwise the unit starts at once
    /// when a worker is free and is queued when every worker is busy — the
    /// submitting caller waits, it is never turned away for load.
    pub fn submit(&mut self) -> (r: Result<Submission, PoolError>)
        requires
            old(self).model().wf(),
            old(self).model().next_id < u64::MAX,
        ensures
            final(self).model() == spec_submit(old(self).model()).0,
            r == spec_submit(old(self).model()).1,
            final(self).model().wf(),
    {
        proof {
            lemma_submit_preserves_wf(old(self).model());
        }
        if !self.accepting {
            return Err(PoolError::ShutDown);
        }
        let id = self.next_id;
        self.next_id = self.next_id + 1;
        if self.running.len() < self.workers {
            self.running.push(id);
            Ok(Submission::Started(id))
        } else {
            self.queue.push(id);
            Ok(Submission::Queued(id))
        }
    }

    /// Finds the running slot of a unit by its identifier.
    pub fn find_running(&self, unit: u64) -> (r: Option<usize>)
        ensures
            match r {
                Some(idx) => idx < self.model().running.len() && self.model().running[idx as int]
                    == unit,
                None => !self.model().running.contains(unit),
            },
    {
        let mut i: usize = 0;
        while i < self.running.len()
            invariant
                i <= self.running@.len(),
                forall|k: int| 0 <= k < i ==> self.running@[k] != unit,
            decreases self.running@.len() - i,
        {
            if self.running[i] == unit {
                return Some(i);
            }
            i = i + 1;
        }
        None
    }

    /// Records that the running unit in slot `idx` finished, and whether it
    /// panicked.
    ///
    /// Returns the outcome owed to that unit's caller — a caught panic is
    /// delivered to it alone — and the queued unit, if any, that takes the
    /// freed worker.
    pub fn complete(&mut self, idx: usize, panicked: bool) -> (r: (UnitResult, Option<u64>))
        requires
            old(self).model().wf(),
            idx < old(self).model().running.len(),
        ensures
            final(self).model() == spec_complete(old(self).model(), idx as int, panicked).0,
            r.0 == spec_complete(old(self).model(), idx as int, panicked).1,
            r.1 == spec_complete(old(self).model(), idx as int, panicked).2,
            final(self).model().wf(),
    {
        proof {
            lemma_complete_preserves_wf(old(self).model(), idx as int, panicked);
        }
        let unit = self.running[idx];
        self.running.remove(idx);
        let outcome = if panicked {
            UnitResult::Panicked(unit)
        } else {
            UnitResult::Completed(unit)
        };
        if self.queue.len() > 0 {
            let next = self.queue.remove(0);
            self.running.push(next);
            proof {
                assert(old(self).model().queue.remove(0) =~= old(self).model().queue.drop_first());
            }
            (outcome, Some(next))
        } else {
            (outcome, Option::<u64>::None)
        }
    }

    /// Begins pool shutdown: no further submissions are accepted, the units
    /// that never started are dropped and returned, and the running units
    /// are left to finish before the workers are joined.
    pub fn begin_shutdown(&mut self) -> (dropped: Vec<u64>)
        ensures
            final(self).model() == spec_begin_shutdown(old(self).model()).0,
            dropped@ == spec_begin_shutdown(old(self).model()).1,
    {
        self.accepting = false;
        let mut dropped: Vec<u64> = Vec::new();
        core::mem::swap(&mut dropped, &mut self.queue);
        proof {
            assert(final(self).model().queue =~= Seq::<u64>::empty());
        }
        dropped
    }
}

} // verus!
