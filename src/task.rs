//! Download tasks: one per playlist, each with its own directories and output
//! artifact, and the summary of a batch of them.

use vstd::prelude::*;
use crate::error::DownloadError;

verus! {

/// One playlist to download: its name, its manifest URL, and the directory
/// its artifact goes under (empty for the default).
#[derive(Clone, Debug)]
pub struct DownloadTask {
    pub name: String,
    pub url: String,
    pub output_dir: String,
}

/// The settings of one download.
#[derive(Clone, Debug)]
pub struct Args {
    /// Manifest URL.
    pub url: String,
    /// Base name of the output artifact, without extension.
    pub output_name: String,
    /// Most segments fetched at once.
    pub concurrent: usize,
    /// Retries allowed per segment.
    pub retry: usize,
    /// Directory for the per-segment files.
    pub download_dir: String,
    /// Directory for the artifact.
    pub output_dir: String,
    /// Position of the task in its batch, counting from one.
    pub index: usize,
}

/// Retries each segment of a task is allowed.
pub const TASK_RETRY_LIMIT: usize = 4;

/// `./output`, the artifact directory of a task that names none.
pub open spec fn default_output_dir() -> Seq<char> {
    seq!['.', '/', 'o', 'u', 't', 'p', 'u', 't']
}

/// The artifact directory of `task`: `./output` when it names none, else its
/// directory followed by `/` and the task's name.
pub open spec fn task_output_dir(task: DownloadTask) -> Seq<char> {
    if task.output_dir@.len() == 0 {
        default_output_dir()
    } else {
        task.output_dir@ + seq!['/'] + task.name@
    }
}

/// The segment directory of `task`: `./downloads/` followed by its name.
pub open spec fn task_download_dir(task: DownloadTask) -> Seq<char> {
    seq!['.', '/', 'd', 'o', 'w', 'n', 'l', 'o', 'a', 'd', 's', '/'] + task.name@
}

/// The artifact's file name for the base name `name`: `name.mp4`.
pub open spec fn artifact_name(name: Seq<char>) -> Seq<char> {
    name + seq!['.', 'm', 'p', '4']
}

/// The intermediate stream's file name for the base name `name`: `name_temp.ts`.
pub open spec fn intermediate_name(name: Seq<char>) -> Seq<char> {
    name + seq!['_', 't', 'e', 'm', 'p', '.', 't', 's']
}

/// The artifact directory of `task`.
pub fn output_dir_of(task: &DownloadTask) -> (r: String)
    ensures
        r@ == task_output_dir(*task),
{
    if task.output_dir.as_str().is_empty() {
        proof {
            reveal_strlit("./output");
        }
        String::from_str("./output")
    } else {
        let mut s = task.output_dir.clone();
        s.append("/");
        s.append(task.name.as_str());
        proof {
            reveal_strlit("/");
        }
        s
    }
}

/// The segment directory of `task`.
pub fn download_dir_of(task: &DownloadTask) -> (r: String)
    ensures
        r@ == task_download_dir(*task),
{
    let mut s = String::from_str("./downloads/");
    s.append(task.name.as_str());
    proof {
        reveal_strlit("./downloads/");
    }
    s
}

/// The artifact's file name for the base name `name`.
pub fn artifact_file_name(name: &str) -> (r: String)
    ensures
        r@ == artifact_name(name@),
{
    let mut s = String::from_str(name);
    s.append(".mp4");
    proof {
        reveal_strlit(".mp4");
    }
    s
}

/// The intermediate stream's file name for the base name `name`.
pub fn intermediate_file_name(name: &str) -> (r: String)
    ensures
        r@ == intermediate_name(name@),
{
    let mut s = String::from_str(name);
    s.append("_temp.ts");
    proof {
        reveal_strlit("_temp.ts");
    }
    s
}

/// The settings of the download that `task` asks for, at position `index` of
/// its batch, fetching at most `max_concurrent` segments at once.
pub fn task_args(task: &DownloadTask, max_concurrent: usize, index: usize) -> (r: Args)
    ensures
        r.url == task.url,
        r.output_name == task.name,
        r.concurrent == max_concurrent,
        r.retry == TASK_RETRY_LIMIT,
        r.download_dir@ == task_download_dir(*task),
        r.output_dir@ == task_output_dir(*task),
        r.index == index,
{
    Args {
        url: task.url.clone(),
        output_name: task.name.clone(),
        concurrent: max_concurrent,
        retry: TASK_RETRY_LIMIT,
        download_dir: download_dir_of(task),
        output_dir: output_dir_of(task),
        index,
    }
}

/// Whether `task` was already downloaded, given the files of its artifact
/// directory as (name, size) pairs: it was when a non-empty file bears its
/// artifact name.
pub fn is_already_downloaded(task: &DownloadTask, files: &Vec<(String, u64)>) -> (r: bool)
    ensures
        r == exists|i: int|
            0 <= i < files@.len() && files@[i].0@ == artifact_name(task.name@) && files@[i].1 > 0,
{
    let target = artifact_file_name(task.name.as_str());
    let mut i: usize = 0;
    while i < files.len()
        invariant
            i <= files@.len(),
            target@ == artifact_name(task.name@),
            forall|k: int| 0 <= k < i ==> !(files@[k].0@ == target@ && files@[k].1 > 0),
        decreases files@.len() - i,
    {
        if files[i].0 == target && files[i].1 > 0 {
            return true;
        }
        i = i + 1;
    }
    false
}

/// How one task of a batch ended.
#[derive(Clone, Debug)]
pub enum TaskOutcome {
    /// Its artifact already existed; nothing was done.
    Skipped,
    /// It was downloaded and assembled.
    Succeeded,
    /// It failed, for this reason.
    Failed(String),
}

/// The kind of a task outcome, without the reason of a failure.
#[derive(Clone, Copy, Debug, PartialEq, Eq, Structural)]
pub enum OutcomeKind {
    Skipped,
    Succeeded,
    Failed,
}

/// The kind of `o`.
pub open spec fn kind_of(o: TaskOutcome) -> OutcomeKind {
    match o {
        TaskOutcome::Skipped => OutcomeKind::Skipped,
        TaskOutcome::Succeeded => OutcomeKind::Succeeded,
        TaskOutcome::Failed(_) => OutcomeKind::Failed,
    }
}

/// Number of outcomes in `outcomes` of kind `k`.
pub open spec fn count_kind(outcomes: Seq<(String, TaskOutcome)>, k: OutcomeKind) -> nat
    decreases outcomes.len(),
{
    if outcomes.len() == 0 {
        0
    } else {
        count_kind(outcomes.drop_last(), k) + if kind_of(outcomes.last().1) == k {
            1nat
        } else {
            0nat
        }
    }
}

/// Number of failed tasks among `outcomes`.
pub open spec fn failed_count(outcomes: Seq<(String, TaskOutcome)>) -> nat {
    count_kind(outcomes, OutcomeKind::Failed)
}

proof fn lemma_count_kind_all(outcomes: Seq<(String, TaskOutcome)>, k: OutcomeKind)
    ensures
        count_kind(outcomes, k) <= outcomes.len(),
        count_kind(outcomes, k) == outcomes.len() <==> forall|i: int|
            0 <= i < outcomes.len() ==> kind_of(#[trigger] outcomes[i].1) == k,
    decreases outcomes.len(),
{
    if outcomes.len() > 0 {
        let init = outcomes.drop_last();
        lemma_count_kind_all(init, k);
        if count_kind(outcomes, k) == outcomes.len() {
            assert forall|i: int| 0 <= i < outcomes.len() implies kind_of(#[trigger] outcomes[i].1) == k by {
                if i < outcomes.len() - 1 {
                    assert(init[i] == outcomes[i]);
                }
            }
        }
        if forall|i: int| 0 <= i < outcomes.len() ==> kind_of(#[trigger] outcomes[i].1) == k {
            assert forall|i: int| 0 <= i < init.len() implies kind_of(#[trigger] init[i].1) == k by {
                assert(init[i] == outcomes[i]);
            }
        }
    }
}

/// How many tasks of a batch succeeded, failed and were skipped.
#[derive(Clone, Copy, Debug, PartialEq, Eq, Structural)]
pub struct BatchCounts {
    pub succeeded: usize,
    pub failed: usize,
    pub skipped: usize,
}

/// Counts the outcomes of a batch by kind.
pub fn count_outcomes(outcomes: &Vec<(String, TaskOutcome)>) -> (r: BatchCounts)
    ensures
        r.succeeded == count_kind(outcomes@, OutcomeKind::Succeeded),
        r.failed == failed_count(outcomes@),
        r.skipped == count_kind(outcomes@, OutcomeKind::Skipped),
{
    let mut r = BatchCounts { succeeded: 0, failed: 0, skipped: 0 };
    let mut i: usize = 0;
    while i < outcomes.len()
        invariant
            i <= outcomes@.len(),
            r.succeeded == count_kind(outcomes@.take(i as int), OutcomeKind::Succeeded),
            r.failed == failed_count(outcomes@.take(i as int)),
            r.skipped == count_kind(outcomes@.take(i as int), OutcomeKind::Skipped),
            r.succeeded + r.failed + r.skipped == i,
        decreases outcomes@.len() - i,
    {
        assert(outcomes@.take(i + 1).drop_last() =~= outcomes@.take(i as int));
        assert(outcomes@.take(i + 1).last() == outcomes@[i as int]);
        match &outcomes[i].1 {
            TaskOutcome::Succeeded => r.succeeded = r.succeeded + 1,
            TaskOutcome::Failed(_) => r.failed = r.failed + 1,
            TaskOutcome::Skipped => r.skipped = r.skipped + 1,
        }
        i = i + 1;
    }
    assert(outcomes@.take(i as int) =~= outcomes@);
    r
}

/// The result of a batch: it fails only when every task failed (an empty
/// batch included); one task's failure does not fail the others.
pub fn batch_result(outcomes: &Vec<(String, TaskOutcome)>) -> (r: Result<(), DownloadError>)
    ensures
        r is Err <==> forall|i: int| 0 <= i < outcomes@.len() ==> outcomes@[i].1 is Failed,
        r matches Err(e) ==> e is TaskError,
{
    proof {
        lemma_count_kind_all(outcomes@, OutcomeKind::Failed);
    }
    if count_outcomes(outcomes).failed == outcomes.len() {
        Err(DownloadError::TaskError(String::from_str("every task failed")))
    } else {
        Ok(())
    }
}

} // verus!
