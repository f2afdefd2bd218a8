//! The scheduler: admits at most `limit` segment fetches at a time, tracks each
//! segment's state and the shared progress counters, and aggregates the
//! outcomes into one result.

use vstd::prelude::*;
use crate::error::DownloadError;
use crate::fetch::FetchOutcome;

verus! {

/// Progress of one download: segment count, segments fetched, bytes received.
pub struct DownloadStats {
    pub total_segments: usize,
    pub completed_segments: usize,
    pub downloaded_bytes: u64,
}

impl DownloadStats {
    /// The counters never describe more completed segments than there are.
    pub open spec fn wf(&self) -> bool {
        self.completed_segments <= self.total_segments
    }

    /// Fresh counters for a download of `total_segments` segments.
    pub fn new(total_segments: usize) -> (r: DownloadStats)
        ensures
            r.wf(),
            r.total_segments == total_segments,
            r.completed_segments == 0,
            r.downloaded_bytes == 0,
    {
        DownloadStats { total_segments, completed_segments: 0, downloaded_bytes: 0 }
    }

    /// Whole percentage of segments completed, rounded down; 0 for an empty download.
    pub fn get_progress_percentage(&self) -> (r: u64)
        requires
            self.wf(),
        ensures
            self.total_segments > 0 ==> r == (self.completed_segments * 100) / (self.total_segments as int),
            self.total_segments == 0 ==> r == 0,
            r <= 100,
    {
        if self.total_segments == 0 {
            return 0;
        }
        let c = self.completed_segments as u128;
        let t = self.total_segments as u128;
        assert(c * 100 <= t * 100) by (nonlinear_arith)
            requires c <= t;
        assert((c * 100) as int / (t as int) <= 100) by (nonlinear_arith)
            requires c * 100 <= t * 100, t > 0;
        (c * 100 / t) as u64
    }

    /// Throughput in bytes per second over `elapsed_ms` milliseconds, rounded
    /// down; 0 when no time has elapsed.
    pub fn get_speed(&self, elapsed_ms: u64) -> (r: u128)
        ensures
            elapsed_ms > 0 ==> r == (self.downloaded_bytes * 1000) / (elapsed_ms as int),
            elapsed_ms == 0 ==> r == 0,
    {
        if elapsed_ms == 0 {
            return 0;
        }
        let b = self.downloaded_bytes as u128;
        assert(b * 1000 <= u64::MAX as u128 * 1000) by (nonlinear_arith)
            requires b <= u64::MAX;
        b * 1000 / (elapsed_ms as u128)
    }
}

/// Where a segment stands in the download.
#[derive(Clone, Copy, Debug, PartialEq, Eq, Structural)]
pub enum SegmentState {
    Pending,
    Downloading,
    Persisted,
    Failed,
}

/// Number of entries of `s` equal to `x`.
pub open spec fn count_state(s: Seq<SegmentState>, x: SegmentState) -> nat
    decreases s.len(),
{
    if s.len() == 0 {
        0
    } else {
        count_state(s.drop_last(), x) + if s.last() == x {
            1nat
        } else {
            0nat
        }
    }
}

proof fn lemma_count_update(s: Seq<SegmentState>, i: int, v: SegmentState, x: SegmentState)
    requires
        0 <= i < s.len(),
    ensures
        count_state(s.update(i, v), x) + (if s[i] == x { 1int } else { 0int })
            == count_state(s, x) + (if v == x { 1int } else { 0int }),
    decreases s.len(),
{
    let t = s.update(i, v);
    if i == s.len() - 1 {
        assert(t.drop_last() =~= s.drop_last());
    } else {
        assert(t.drop_last() =~= s.drop_last().update(i, v));
        lemma_count_update(s.drop_last(), i, v, x);
    }
}

proof fn lemma_count_le(s: Seq<SegmentState>, x: SegmentState)
    ensures
        count_state(s, x) <= s.len(),
    decreases s.len(),
{
    if s.len() > 0 {
        lemma_count_le(s.drop_last(), x);
    }
}

proof fn lemma_count_all(s: Seq<SegmentState>, x: SegmentState)
    requires
        forall|i: int| 0 <= i < s.len() ==> s[i] == x,
    ensures
        count_state(s, x) == s.len(),
    decreases s.len(),
{
    if s.len() > 0 {
        lemma_count_all(s.drop_last(), x);
    }
}

proof fn lemma_count_none(s: Seq<SegmentState>, x: SegmentState)
    requires
        forall|i: int| 0 <= i < s.len() ==> s[i] != x,
    ensures
        count_state(s, x) == 0,
    decreases s.len(),
{
    if s.len() > 0 {
        lemma_count_none(s.drop_last(), x);
    }
}

proof fn lemma_count_zero(s: Seq<SegmentState>, x: SegmentState, i: int)
    requires
        count_state(s, x) == 0,
        0 <= i < s.len(),
    ensures
        s[i] != x,
    decreases s.len(),
{
    if i < s.len() - 1 {
        lemma_count_zero(s.drop_last(), x, i);
    }
}

/// Admission and bookkeeping for the segments of one download. Segments are
/// admitted in manifest order, and at most `limit` are downloading at once.
pub struct Scheduler {
    pub limit: usize,
    pub states: Vec<SegmentState>,
    pub active: usize,
    pub next: usize,
    pub stats: DownloadStats,
    pub first_failure: Option<(usize, DownloadError)>,
}

impl Scheduler {
    /// The scheduler's invariant. `active` is the number of segments
    /// downloading and never exceeds `limit`; the segments before `next` have
    /// been admitted and the rest are pending; `first_failure` records the
    /// lowest failed position; completed segments are among the persisted ones.
    pub open spec fn wf(&self) -> bool {
        &&& self.active == count_state(self.states@, SegmentState::Downloading)
        &&& self.active <= self.limit
        &&& self.next <= self.states@.len()
        &&& forall|i: int| 0 <= i < self.next ==> self.states@[i] != SegmentState::Pending
        &&& forall|i: int| self.next <= i < self.states@.len() ==> self.states@[i] == SegmentState::Pending
        &&& self.stats.wf()
        &&& self.stats.total_segments == self.states@.len()
        &&& self.stats.completed_segments <= count_state(self.states@, SegmentState::Persisted)
        &&& match self.first_failure {
            Some((p, _)) => {
                &&& p < self.states@.len()
                &&& self.states@[p as int] == SegmentState::Failed
                &&& forall|i: int| 0 <= i < p ==> self.states@[i] != SegmentState::Failed
            },
            None => forall|i: int| 0 <= i < self.states@.len() ==> self.states@[i] != SegmentState::Failed,
        }
    }

    /// At no point are more than `limit` segments downloading, whatever the
    /// number of segments; and the completed count never exceeds the total.
    pub proof fn lemma_admission_bound(&self)
        requires
            self.wf(),
        ensures
            count_state(self.states@, SegmentState::Downloading) <= self.limit,
            self.stats.completed_segments <= self.stats.total_segments,
    {
    }

    /// Every segment reached a terminal state.
    pub open spec fn all_terminal(&self) -> bool {
        forall|i: int|
            0 <= i < self.states@.len() ==> (self.states@[i] == SegmentState::Persisted
                || self.states@[i] == SegmentState::Failed)
    }

    /// A scheduler for `total` segments, all pending, admitting at most `limit` at once.
    pub fn new(total: usize, limit: usize) -> (r: Scheduler)
        ensures
            r.wf(),
            r.limit == limit,
            r.states@ == Seq::new(total as nat, |i: int| SegmentState::Pending),
            r.active == 0,
            r.next == 0,
            r.first_failure is None,
            r.stats.total_segments == total,
            r.stats.completed_segments == 0,
            r.stats.downloaded_bytes == 0,
    {
        let mut states: Vec<SegmentState> = Vec::new();
        let mut i: usize = 0;
        while i < total
            invariant
                i <= total,
                states@ == Seq::new(i as nat, |k: int| SegmentState::Pending),
            decreases total - i,
        {
            states.push(SegmentState::Pending);
            i = i + 1;
            assert(states@ =~= Seq::new(i as nat, |k: int| SegmentState::Pending));
        }
        proof {
            lemma_count_none(states@, SegmentState::Downloading);
            lemma_count_none(states@, SegmentState::Persisted);
        }
        Scheduler { limit, states, active: 0, next: 0, stats: DownloadStats::new(total), first_failure: None }
    }

    /// Admits the next pending segment, in manifest order, when fewer than
    /// `limit` are downloading; returns its position.
    pub fn admit_next(&mut self) -> (r: Option<usize>)
        requires
            old(self).wf(),
        ensures
            final(self).wf(),
            final(self).limit == old(self).limit,
            final(self).stats == old(self).stats,
            final(self).first_failure == old(self).first_failure,
            (old(self).active < old(self).limit && old(self).next < old(self).states@.len()) ==> {
                &&& r == Some(old(self).next)
                &&& final(self).states@ == old(self).states@.update(old(self).next as int, SegmentState::Downloading)
                &&& final(self).active == old(self).active + 1
                &&& final(self).next == old(self).next + 1
            },
            !(old(self).active < old(self).limit && old(self).next < old(self).states@.len()) ==> {
                &&& r is None
                &&& final(self).states@ == old(self).states@
                &&& final(self).active == old(self).active
                &&& final(self).next == old(self).next
            },
    {
        if self.active < self.limit && self.next < self.states.len() {
            let p = self.next;
            proof {
                lemma_count_update(self.states@, p as int, SegmentState::Downloading, SegmentState::Downloading);
                lemma_count_update(self.states@, p as int, SegmentState::Downloading, SegmentState::Persisted);
            }
            self.states.set(p, SegmentState::Downloading);
            self.active = self.active + 1;
            self.next = p + 1;
            Some(p)
        } else {
            None
        }
    }

    /// The state of the segment at `position`.
    pub fn state_of(&self, position: usize) -> (r: SegmentState)
        requires
            position < self.states@.len(),
        ensures
            r == self.states@[position as int],
    {
        self.states[position]
    }

    /// Adds `n` received bytes to the progress counters, saturating at the
    /// largest `u64`, so the count never decreases.
    pub fn record_bytes(&mut self, n: u64)
        requires
            old(self).wf(),
        ensures
            final(self).wf(),
            final(self).states@ == old(self).states@,
            final(self).active == old(self).active,
            final(self).next == old(self).next,
            final(self).limit == old(self).limit,
            final(self).first_failure == old(self).first_failure,
            final(self).stats.completed_segments == old(self).stats.completed_segments,
            final(self).stats.total_segments == old(self).stats.total_segments,
            final(self).stats.downloaded_bytes == if old(self).stats.downloaded_bytes + n > u64::MAX {
                u64::MAX as int
            } else {
                old(self).stats.downloaded_bytes + n
            },
    {
        self.stats.downloaded_bytes = self.stats.downloaded_bytes.saturating_add(n);
    }

    /// The segment at `position` reached a terminal state. It stops counting
    /// as downloading; a fetched segment adds one to the completed count, a
    /// kept one does not; a failure is recorded when its position is the lowest.
    pub fn complete(&mut self, position: usize, outcome: Result<FetchOutcome, DownloadError>)
        requires
            old(self).wf(),
            position < old(self).states@.len(),
            old(self).states@[position as int] == SegmentState::Downloading,
        ensures
            final(self).wf(),
            final(self).limit == old(self).limit,
            final(self).active == old(self).active - 1,
            final(self).next == old(self).next,
            final(self).stats.downloaded_bytes == old(self).stats.downloaded_bytes,
            outcome is Ok ==> final(self).states@ == old(self).states@.update(position as int, SegmentState::Persisted),
            outcome is Err ==> final(self).states@ == old(self).states@.update(position as int, SegmentState::Failed),
            outcome is Ok ==> final(self).first_failure == old(self).first_failure,
            outcome matches Err(e) ==> final(self).first_failure == match old(self).first_failure {
                Some((p, f)) => if position < p {
                    Some((position, e))
                } else {
                    Some((p, f))
                },
                None => Some((position, e)),
            },
            final(self).stats.completed_segments == old(self).stats.completed_segments + if outcome == Ok::<FetchOutcome, DownloadError>(FetchOutcome::Fetched) {
                1int
            } else {
                0int
            },
    {
        let ghost s0 = self.states@;
        proof {
            lemma_count_update(s0, position as int, SegmentState::Persisted, SegmentState::Downloading);
            lemma_count_update(s0, position as int, SegmentState::Persisted, SegmentState::Persisted);
            lemma_count_update(s0, position as int, SegmentState::Failed, SegmentState::Downloading);
            lemma_count_update(s0, position as int, SegmentState::Failed, SegmentState::Persisted);
            lemma_count_le(s0, SegmentState::Persisted);
        }
        self.active = self.active - 1;
        match outcome {
            Ok(o) => {
                self.states.set(position, SegmentState::Persisted);
                proof {
                    lemma_count_le(self.states@, SegmentState::Persisted);
                }
                if o == FetchOutcome::Fetched {
                    self.stats.completed_segments = self.stats.completed_segments + 1;
                }
            },
            Err(e) => {
                self.states.set(position, SegmentState::Failed);
                let replace = match &self.first_failure {
                    None => true,
                    Some((p, _)) => position < *p,
                };
                if replace {
                    self.first_failure = Some((position, e));
                }
            },
        }
    }

    /// No segment is pending or downloading any more.
    pub fn is_finished(&self) -> (r: bool)
        requires
            self.wf(),
        ensures
            r == self.all_terminal(),
    {
        let r = self.next == self.states.len() && self.active == 0;
        proof {
            if r {
                assert forall|i: int| 0 <= i < self.states@.len() implies (self.states@[i] == SegmentState::Persisted
                    || self.states@[i] == SegmentState::Failed) by {
                    lemma_count_zero(self.states@, SegmentState::Downloading, i);
                }
            }
            if self.all_terminal() {
                if self.next < self.states@.len() {
                    assert(self.states@[self.next as int] == SegmentState::Pending);
                }
                lemma_count_none(self.states@, SegmentState::Downloading);
            }
        }
        r
    }

    /// The download's aggregate result once every segment is terminal: `Ok`
    /// when all were persisted, otherwise the failure of the lowest failed
    /// position.
    pub fn into_result(self) -> (r: Result<(), DownloadError>)
        requires
            self.wf(),
            self.all_terminal(),
        ensures
            r is Ok <==> forall|i: int| 0 <= i < self.states@.len() ==> self.states@[i] == SegmentState::Persisted,
            r matches Err(e) ==> (self.first_failure matches Some((p, f)) && e == f
                && self.states@[p as int] == SegmentState::Failed
                && forall|i: int| 0 <= i < p ==> self.states@[i] == SegmentState::Persisted),
    {
        match self.first_failure {
            None => Ok(()),
            Some((_, e)) => Err(e),
        }
    }
}

} // verus!
