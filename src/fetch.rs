//! The segment fetcher: the decisions of one segment's download, as a state
//! machine. The driver performs each action it returns (inspect or discard a
//! file, retrieve a URL, persist bytes, wait) and reports what happened.

use vstd::prelude::*;
use crate::crypto::{decrypt_segment, segment_plaintext};
use crate::error::DownloadError;
use crate::location::{resolve_url, resolved};
use crate::naming::{get_segment_filename, segment_file_name};

verus! {

/// What the driver found at a segment's file name before fetching.
#[derive(Clone, Copy, Debug, PartialEq, Eq, Structural)]
pub enum ExistingFile {
    /// No file by that name.
    Absent,
    /// A file that the validator accepts.
    Valid,
    /// A file that the validator rejects.
    Invalid,
}

/// How a segment reached its persisted state.
#[derive(Clone, Copy, Debug, PartialEq, Eq, Structural)]
pub enum FetchOutcome {
    /// A valid file from an earlier run was kept; nothing was retrieved.
    Skipped,
    /// The segment was retrieved and written.
    Fetched,
}

/// Where a segment's download stands.
#[derive(Clone, Copy, Debug, PartialEq, Eq, Structural)]
pub enum FetchPhase {
    Idle,
    Inspecting,
    Discarding,
    Retrieving,
    Persisting,
    Waiting,
    Done,
}

/// What the driver is to do next.
#[derive(Debug)]
pub enum FetchAction {
    /// Look at the file of this name in the download directory, and report
    /// whether it is absent, valid or invalid.
    Inspect(String),
    /// Delete the file of this name; a failure to delete is only logged.
    Discard(String),
    /// Retrieve this URL; a non-success status is an `HttpError`.
    Retrieve(String),
    /// Write these bytes to the file of this name, in full.
    Persist(String, Vec<u8>),
    /// Wait this many milliseconds before the next attempt.
    Wait(u64),
    /// The segment reached a terminal state.
    Finish(Result<FetchOutcome, DownloadError>),
}

/// One segment's download: where it comes from, how it is decrypted, and how
/// many retries it has made.
pub struct SegmentFetch {
    pub position: usize,
    pub uri: String,
    pub base_url: String,
    pub key: Option<Vec<u8>>,
    pub retry_limit: usize,
    pub file_name: String,
    pub retries: usize,
    pub phase: FetchPhase,
}

/// Pause before retry number `retry`: a linear backoff of one second per
/// retry, capped at the largest `u64`.
pub open spec fn backoff_ms(retry: nat) -> nat {
    if 1000 * retry > u64::MAX {
        u64::MAX as nat
    } else {
        1000 * retry
    }
}

/// After a failed attempt, with `retries` retries made out of `limit`: the
/// number of retries once the next one starts, or `None` when they are spent.
pub open spec fn retry_after_failure(retries: nat, limit: nat) -> Option<nat> {
    if retries < limit {
        Some(retries + 1)
    } else {
        None
    }
}

/// Retries made, and whether the segment succeeded, when its attempts turn
/// out as `outcomes` (`true` for an attempt that succeeds), starting with
/// `retries` retries made.
pub open spec fn retry_run(limit: nat, retries: nat, outcomes: Seq<bool>) -> (nat, bool)
    decreases outcomes.len(),
{
    if outcomes.len() == 0 {
        (retries, false)
    } else if outcomes[0] {
        (retries, true)
    } else {
        match retry_after_failure(retries, limit) {
            Some(next) => retry_run(limit, next, outcomes.drop_first()),
            None => (retries, false),
        }
    }
}

/// A segment whose every attempt fails makes exactly `limit` retries and then
/// fails; one whose attempt number `k` (counting from one, `k` at most
/// `limit + 1`) is the first to succeed makes `k - 1` retries and succeeds.
pub proof fn lemma_retry_counts(limit: nat, outcomes: Seq<bool>, k: nat)
    ensures
        outcomes.len() > limit && (forall|i: int| 0 <= i < outcomes.len() ==> !outcomes[i])
            ==> retry_run(limit, 0, outcomes) == (limit, false),
        1 <= k <= limit + 1 && k <= outcomes.len() && outcomes[k - 1]
            && (forall|i: int| 0 <= i < k - 1 ==> !outcomes[i])
            ==> retry_run(limit, 0, outcomes) == ((k - 1) as nat, true),
{
    if outcomes.len() > limit && (forall|i: int| 0 <= i < outcomes.len() ==> !outcomes[i]) {
        lemma_run_all_fail(limit, 0, outcomes);
    }
    if 1 <= k <= limit + 1 && k <= outcomes.len() && outcomes[k - 1]
        && (forall|i: int| 0 <= i < k - 1 ==> !outcomes[i]) {
        lemma_run_first_success(limit, 0, outcomes, k);
    }
}

proof fn lemma_run_all_fail(limit: nat, retries: nat, outcomes: Seq<bool>)
    requires
        retries <= limit,
        outcomes.len() > limit - retries,
        forall|i: int| 0 <= i < outcomes.len() ==> !outcomes[i],
    ensures
        retry_run(limit, retries, outcomes) == (limit, false),
    decreases outcomes.len(),
{
    if retries < limit {
        lemma_run_all_fail(limit, retries + 1, outcomes.drop_first());
    }
}

proof fn lemma_run_first_success(limit: nat, retries: nat, outcomes: Seq<bool>, k: nat)
    requires
        1 <= k,
        retries + k <= limit + 1,
        k <= outcomes.len(),
        outcomes[k - 1],
        forall|i: int| 0 <= i < k - 1 ==> !outcomes[i],
    ensures
        retry_run(limit, retries, outcomes) == ((retries + k - 1) as nat, true),
    decreases outcomes.len(),
{
    if k > 1 {
        assert(!outcomes[0]);
        let rest = outcomes.drop_first();
        assert(rest[k - 2] == outcomes[k - 1]);
        assert forall|i: int| 0 <= i < k - 2 implies !rest[i] by {
            assert(rest[i] == outcomes[i + 1]);
        }
        lemma_run_first_success(limit, retries + 1, rest, (k - 1) as nat);
    }
}

/// The cause that a give-up action carries, if `a` is one.
pub open spec fn failure_cause(a: &FetchAction) -> Option<DownloadError> {
    match a {
        FetchAction::Finish(Err(DownloadError::SegmentFailed { cause, .. })) => Some(**cause),
        _ => None,
    }
}

impl SegmentFetch {
    /// The machine's invariant: the retries made stay within the limit, and
    /// the file name is the one derived from the URI and position.
    pub open spec fn wf(&self) -> bool {
        &&& self.retries <= self.retry_limit
        &&& self.file_name@ == segment_file_name(self.uri@, self.position as nat)
    }

    /// `next` has the same segment, source, key and limit as `self`.
    pub open spec fn same_segment(&self, next: &SegmentFetch) -> bool {
        &&& next.position == self.position
        &&& next.uri == self.uri
        &&& next.base_url == self.base_url
        &&& next.key == self.key
        &&& next.retry_limit == self.retry_limit
        &&& next.file_name == self.file_name
    }

    /// `next` and `a` are what a failed attempt leads to from `self`: a wait
    /// before the next retry, or, with the retries spent, a `SegmentFailed`
    /// for this position that counts `retry_limit` retries.
    pub open spec fn after_failure(&self, next: &SegmentFetch, a: &FetchAction) -> bool {
        &&& self.same_segment(next)
        &&& match retry_after_failure(self.retries as nat, self.retry_limit as nat) {
            Some(r) => {
                &&& next.retries == r
                &&& next.phase == FetchPhase::Waiting
                &&& *a == FetchAction::Wait(backoff_ms(r) as u64)
            },
            None => {
                &&& next.retries == self.retries
                &&& next.phase == FetchPhase::Done
                &&& (*a matches FetchAction::Finish(
                    Err(DownloadError::SegmentFailed { position, retries, .. }),
                ) && position == self.position && retries == self.retry_limit)
            },
        }
    }

    /// `next` and `a` are what starting an attempt leads to from `self`: the
    /// retrieval of the resolved URL, or, when it does not resolve, a failed
    /// attempt.
    pub open spec fn after_attempt_start(&self, next: &SegmentFetch, a: &FetchAction) -> bool {
        match resolved(self.base_url@, self.uri@) {
            Some(u) => {
                &&& self.same_segment(next)
                &&& next.retries == self.retries
                &&& next.phase == FetchPhase::Retrieving
                &&& (*a matches FetchAction::Retrieve(url) && url@ == u)
            },
            None => {
                &&& self.after_failure(next, a)
                &&& (failure_cause(a) matches Some(c) ==> c is ParseError)
            },
        }
    }

    /// A machine for the segment at `position`, before anything is done.
    pub fn new(position: usize, uri: String, base_url: String, key: Option<Vec<u8>>, retry_limit: usize) -> (r: SegmentFetch)
        ensures
            r.wf(),
            r.position == position,
            r.uri == uri,
            r.base_url == base_url,
            r.key == key,
            r.retry_limit == retry_limit,
            r.retries == 0,
            r.phase == FetchPhase::Idle,
    {
        let file_name = get_segment_filename(uri.as_str(), position);
        SegmentFetch { position, uri, base_url, key, retry_limit, file_name, retries: 0, phase: FetchPhase::Idle }
    }

    /// Starts the download: first look at what an earlier run left.
    pub fn start(&mut self) -> (a: FetchAction)
        requires
            old(self).wf(),
            old(self).phase == FetchPhase::Idle,
        ensures
            final(self).wf(),
            old(self).same_segment(&*final(self)),
            final(self).retries == old(self).retries,
            final(self).phase == FetchPhase::Inspecting,
            a matches FetchAction::Inspect(n) && n@ == segment_file_name(old(self).uri@, old(self).position as nat),
    {
        self.phase = FetchPhase::Inspecting;
        FetchAction::Inspect(self.file_name.clone())
    }

    /// The pause before retry number `retry`, in milliseconds.
    fn backoff(retry: usize) -> (r: u64)
        ensures
            r == backoff_ms(retry as nat),
    {
        if retry as u128 * 1000 > u64::MAX as u128 {
            u64::MAX
        } else {
            (retry as u64) * 1000
        }
    }

    /// An attempt failed with `cause`: wait and retry, or give up.
    fn fail_attempt(&mut self, cause: DownloadError) -> (a: FetchAction)
        requires
            old(self).wf(),
        ensures
            final(self).wf(),
            old(self).after_failure(&*final(self), &a),
            failure_cause(&a) matches Some(c) ==> c == cause,
    {
        if self.retries < self.retry_limit {
            self.retries = self.retries + 1;
            self.phase = FetchPhase::Waiting;
            FetchAction::Wait(Self::backoff(self.retries))
        } else {
            self.phase = FetchPhase::Done;
            FetchAction::Finish(
                Err(DownloadError::SegmentFailed { position: self.position, retries: self.retry_limit, cause: Box::new(cause) }),
            )
        }
    }

    /// Starts an attempt: resolve the URI against the base, then retrieve it.
    fn start_attempt(&mut self) -> (a: FetchAction)
        requires
            old(self).wf(),
        ensures
            final(self).wf(),
            old(self).after_attempt_start(&*final(self), &a),
    {
        match resolve_url(self.base_url.as_str(), self.uri.as_str()) {
            Ok(url) => {
                self.phase = FetchPhase::Retrieving;
                FetchAction::Retrieve(url)
            },
            Err(e) => self.fail_attempt(e),
        }
    }

    /// The file at the segment's name was inspected. A valid one is kept and
    /// the segment finishes as `Skipped`, with nothing retrieved; an invalid
    /// one is discarded first; without one the first attempt starts.
    pub fn on_inspected(&mut self, existing: ExistingFile) -> (a: FetchAction)
        requires
            old(self).wf(),
            old(self).phase == FetchPhase::Inspecting,
        ensures
            final(self).wf(),
            existing == ExistingFile::Valid ==> {
                &&& old(self).same_segment(&*final(self))
                &&& final(self).retries == old(self).retries
                &&& final(self).phase == FetchPhase::Done
                &&& a == FetchAction::Finish(Ok(FetchOutcome::Skipped))
            },
            existing == ExistingFile::Invalid ==> {
                &&& old(self).same_segment(&*final(self))
                &&& final(self).retries == old(self).retries
                &&& final(self).phase == FetchPhase::Discarding
                &&& a == FetchAction::Discard(old(self).file_name)
            },
            existing == ExistingFile::Absent ==> old(self).after_attempt_start(&*final(self), &a),
    {
        match existing {
            ExistingFile::Valid => {
                self.phase = FetchPhase::Done;
                FetchAction::Finish(Ok(FetchOutcome::Skipped))
            },
            ExistingFile::Invalid => {
                self.phase = FetchPhase::Discarding;
                FetchAction::Discard(self.file_name.clone())
            },
            ExistingFile::Absent => self.start_attempt(),
        }
    }

    /// The invalid file was deleted (or its deletion failed, which is only
    /// logged): the first attempt starts.
    pub fn on_discarded(&mut self) -> (a: FetchAction)
        requires
            old(self).wf(),
            old(self).phase == FetchPhase::Discarding,
        ensures
            final(self).wf(),
            old(self).after_attempt_start(&*final(self), &a),
    {
        self.start_attempt()
    }

    /// The pause before a retry is over: the next attempt starts.
    pub fn on_waited(&mut self) -> (a: FetchAction)
        requires
            old(self).wf(),
            old(self).phase == FetchPhase::Waiting,
        ensures
            final(self).wf(),
            old(self).after_attempt_start(&*final(self), &a),
    {
        self.start_attempt()
    }

    /// The retrieval finished. Received bytes are decrypted at this segment's
    /// position when there is a key, then persisted; a failed retrieval or
    /// decryption is a failed attempt.
    pub fn on_retrieved(&mut self, body: Result<Vec<u8>, DownloadError>) -> (a: FetchAction)
        requires
            old(self).wf(),
            old(self).phase == FetchPhase::Retrieving,
        ensures
            final(self).wf(),
            body is Err ==> old(self).after_failure(&*final(self), &a),
            body matches Err(e) ==> (failure_cause(&a) matches Some(c) ==> c == e),
            body matches Ok(data) ==> match old(self).key {
                None => {
                    &&& old(self).same_segment(&*final(self))
                    &&& final(self).retries == old(self).retries
                    &&& final(self).phase == FetchPhase::Persisting
                    &&& (a matches FetchAction::Persist(n, d) && n == old(self).file_name && d == data)
                },
                Some(k) => {
                    if k@.len() == 16 && segment_plaintext(data@, k@, old(self).position as nat) is Some {
                        &&& old(self).same_segment(&*final(self))
                        &&& final(self).retries == old(self).retries
                        &&& final(self).phase == FetchPhase::Persisting
                        &&& (a matches FetchAction::Persist(n, d) && n == old(self).file_name
                            && segment_plaintext(data@, k@, old(self).position as nat) == Some(d@))
                    } else {
                        &&& old(self).after_failure(&*final(self), &a)
                        &&& (failure_cause(&a) matches Some(c) ==> if k@.len() == 16 {
                            c is DecryptionError
                        } else {
                            c is InvalidKeyLength
                        })
                    }
                },
            },
    {
        match body {
            Err(e) => self.fail_attempt(e),
            Ok(data) => {
                let payload = match &self.key {
                    None => Ok(data),
                    Some(k) => decrypt_segment(data, k.as_slice(), self.position),
                };
                match payload {
                    Ok(d) => {
                        self.phase = FetchPhase::Persisting;
                        FetchAction::Persist(self.file_name.clone(), d)
                    },
                    Err(e) => self.fail_attempt(e),
                }
            },
        }
    }

    /// The payload was written, or the write failed: the segment finishes as
    /// `Fetched`, or the attempt failed.
    pub fn on_written(&mut self, written: Result<(), DownloadError>) -> (a: FetchAction)
        requires
            old(self).wf(),
            old(self).phase == FetchPhase::Persisting,
        ensures
            final(self).wf(),
            written is Ok ==> {
                &&& old(self).same_segment(&*final(self))
                &&& final(self).retries == old(self).retries
                &&& final(self).phase == FetchPhase::Done
                &&& a == FetchAction::Finish(Ok(FetchOutcome::Fetched))
            },
            written is Err ==> old(self).after_failure(&*final(self), &a),
            written matches Err(e) ==> (failure_cause(&a) matches Some(c) ==> c == e),
    {
        match written {
            Ok(()) => {
                self.phase = FetchPhase::Done;
                FetchAction::Finish(Ok(FetchOutcome::Fetched))
            },
            Err(e) => self.fail_attempt(e),
        }
    }
}

} // verus!
