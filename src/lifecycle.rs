//! The job lifecycle (pending, running, deleted) and the operations that
//! workers use: list pending jobs, claim one, submit its result.

use vstd::prelude::*;

use crate::model::{Job, MAX_BENCH_MINUTES};
use crate::store::{
    cleared_before, has_id, job_of, set_started, stale_cutoff, started_before, without_id, JobStore,
};
use crate::time::{Timestamp, MICROS_PER_MINUTE};

verus! {

broadcast use vstd::seq_lib::group_seq_properties;

/// Why a worker's request was refused.
#[derive(Clone, Copy, Debug, PartialEq, Eq, Structural)]
pub enum JobError {
    /// No job carries the id.
    NotFound,
    /// The job has not been claimed.
    InvalidState,
    /// The result could not be published; the job is pending again.
    PublishFailure,
}

/// What to do with a submitted result.
#[derive(Debug)]
pub enum SubmitStep {
    /// Publish `text` at `target`, then finish the job.
    Publish { target: String, text: String },
    /// Finish the job: there is nothing to publish.
    Complete,
}

/// The jobs that no worker has claimed, in table order.
pub open spec fn pending_of(rows: Seq<Job>) -> Seq<Job> {
    rows.filter(|j: Job| j.started_at.is_none())
}

/// The jobs among `all` that no worker has claimed, in order.
pub fn pending_jobs(all: &Vec<Job>) -> (r: Vec<Job>)
    ensures
        r@ == pending_of(all@),
{
    let mut out: Vec<Job> = Vec::new();
    let mut i: usize = 0;
    while i < all.len()
        invariant
            0 <= i <= all@.len(),
            out@ == pending_of(all@.take(i as int)),
        decreases all@.len() - i,
    {
        proof {
            assert(all@.take(i as int + 1) =~= all@.take(i as int).push(all@[i as int]));
            all@.take(i as int).lemma_filter_push(all@[i as int], |j: Job| j.started_at.is_none());
        }
        if all[i].started_at.is_none() {
            out.push(all[i].clone());
        }
        i += 1;
    }
    assert(all@.take(all@.len() as int) =~= all@);
    out
}

/// List all pending jobs of the store.
pub fn jobs(store: &JobStore) -> (r: Vec<Job>)
    ensures
        r@ == pending_of(store.rows()),
{
    let all = Job::all(store);
    pending_jobs(&all)
}

/// A job is listed as pending exactly when it has no claim time.
pub proof fn lemma_listed_iff_pending(rows: Seq<Job>, j: Job)
    ensures
        pending_of(rows).contains(j) <==> (rows.contains(j) && j.started_at.is_none()),
{
    broadcast use vstd::seq_lib::group_filter_ensures;

    if pending_of(rows).contains(j) {
        rows.lemma_filter_contains_rev(|j: Job| j.started_at.is_none(), j);
        let i = choose|i: int| 0 <= i < pending_of(rows).len() && pending_of(rows)[i] == j;
        rows.lemma_filter_pred(|j: Job| j.started_at.is_none(), i);
    }
    if rows.contains(j) && j.started_at.is_none() {
        let i = choose|i: int| 0 <= i < rows.len() && rows[i] == j;
        rows.lemma_filter_contains(|j: Job| j.started_at.is_none(), i);
    }
}

/// Whether a claim on `job` (looked up by id) goes ahead: an unknown job
/// is not found.
pub fn claim_decision(job: &Option<Job>) -> (r: Result<(), JobError>)
    ensures
        job.is_some() ==> r is Ok,
        job.is_none() ==> r == Err::<(), JobError>(JobError::NotFound),
{
    match job {
        Some(_) => Ok(()),
        None => Err(JobError::NotFound),
    }
}

/// Claiming a stored job twice leaves exactly one row for it, in its
/// place, claimed at the later time; no row comes or goes.
pub proof fn lemma_claim_twice(store: &JobStore, id: i32, first: Timestamp, second: Timestamp)
    requires
        store.wf(),
        has_id(store.rows(), id),
    ensures
        ({
            let rows = store.rows();
            let twice = set_started(set_started(rows, id, Some(first)), id, Some(second));
            &&& twice == set_started(rows, id, Some(second))
            &&& twice.len() == rows.len()
            &&& forall|i: int| 0 <= i < rows.len() ==> #[trigger] twice[i].id == rows[i].id
            &&& exists|i: int|
                0 <= i < twice.len() && twice[i].id == id && #[trigger] twice[i].started_at == Some(
                    second,
                ) && forall|k: int| 0 <= k < twice.len() && #[trigger] twice[k].id == id ==> k == i
        }),
{
    let rows = store.rows();
    let twice = set_started(set_started(rows, id, Some(first)), id, Some(second));
    assert(twice =~= set_started(rows, id, Some(second)));
    store.lemma_ids_unique();
    let i = choose|i: int| 0 <= i < rows.len() && #[trigger] rows[i].id == id;
    assert(twice[i].started_at == Some(second));
    assert forall|k: int| 0 <= k < twice.len() && #[trigger] twice[k].id == id implies k == i by {
        assert(rows[k].id == id);
    }
}

/// What a worker's `result` for `job` leads to: a missing job is not
/// found; an unclaimed one is refused; a claimed one with a result target
/// and a result has it published; any other claimed one is finished.
pub open spec fn submit_outcome(job: Option<Job>, result: Option<String>) -> Result<
    SubmitStep,
    JobError,
> {
    match job {
        None => Err(JobError::NotFound),
        Some(j) => if j.started_at.is_none() {
            Err(JobError::InvalidState)
        } else {
            match (j.comments_url, result) {
                (Some(target), Some(text)) => Ok(SubmitStep::Publish { target, text }),
                _ => Ok(SubmitStep::Complete),
            }
        },
    }
}

/// What the worker's result for `job` calls for.
pub fn submit_decision(job: &Option<Job>, result: Option<String>) -> (r: Result<
    SubmitStep,
    JobError,
>)
    ensures
        r == submit_outcome(*job, result),
{
    match job {
        None => Err(JobError::NotFound),
        Some(j) => {
            if j.started_at.is_none() {
                Err(JobError::InvalidState)
            } else {
                match (&j.comments_url, result) {
                    (Some(target), Some(text)) => Ok(
                        SubmitStep::Publish { target: target.clone(), text },
                    ),
                    _ => Ok(SubmitStep::Complete),
                }
            }
        },
    }
}

/// First half of a submission: look the job up and decide.
pub fn begin_submit(store: &JobStore, id: i32, result: Option<String>) -> (r: Result<
    SubmitStep,
    JobError,
>)
    requires
        store.wf(),
    ensures
        r == submit_outcome(job_of(store.rows(), id), result),
{
    let job = Job::from_id(store, id);
    submit_decision(&job, result)
}

/// Second half of a submission: once the result is published (or there
/// was nothing to publish) the job is deleted; when publishing failed it
/// goes back to pending and the failure is reported.
pub fn finish_submit(store: &mut JobStore, id: i32, published: bool) -> (r: Result<(), JobError>)
    requires
        old(store).wf(),
    ensures
        final(store).wf(),
        final(store).checkpoints() == old(store).checkpoints(),
        published ==> r is Ok && final(store).rows() == without_id(old(store).rows(), id),
        published ==> !has_id(final(store).rows(), id),
        !published ==> r == Err::<(), JobError>(JobError::PublishFailure) && final(store).rows()
            == set_started(old(store).rows(), id, None),
        !published ==> job_of(final(store).rows(), id) == match job_of(old(store).rows(), id) {
            Some(j) => Some(j.with_started(None)),
            None => None,
        },
{
    let r = publish_outcome(published);
    if r.is_ok() {
        store.remove(id);
    } else {
        store.set_started(id, None);
    }
    r
}

/// What a submission reports once publishing its result succeeded or not.
pub fn publish_outcome(published: bool) -> (r: Result<(), JobError>)
    ensures
        published ==> r is Ok,
        !published ==> r == Err::<(), JobError>(JobError::PublishFailure),
{
    if published {
        Ok(())
    } else {
        Err(JobError::PublishFailure)
    }
}

/// The stale-claim cutoff for the current time `now`, where it can be
/// represented.
pub fn stale_cutoff_from(now: Timestamp) -> (r: Option<Timestamp>)
    ensures
        now.can_go_back(MAX_BENCH_MINUTES) ==> r == Some(stale_cutoff(now)),
        !now.can_go_back(MAX_BENCH_MINUTES) ==> r.is_none(),
{
    if now.micros >= i64::MIN + MAX_BENCH_MINUTES * MICROS_PER_MINUTE {
        Some(now.minus_minutes(MAX_BENCH_MINUTES))
    } else {
        None
    }
}

/// Stale reclaim returns to pending all and only the jobs claimed strictly
/// before the cutoff; the others are untouched, and no row comes or goes.
pub proof fn lemma_reclaim_exact(rows: Seq<Job>, cutoff: Timestamp)
    ensures
        cleared_before(rows, cutoff).len() == rows.len(),
        forall|i: int|
            0 <= i < rows.len() && started_before(rows[i], cutoff) ==> #[trigger] cleared_before(
                rows,
                cutoff,
            )[i] == rows[i].with_started(None),
        forall|i: int|
            0 <= i < rows.len() && !started_before(rows[i], cutoff) ==> #[trigger] cleared_before(
                rows,
                cutoff,
            )[i] == rows[i],
{
}

} // verus!
