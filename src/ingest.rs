//! Ingestion: whether a notification or the tracked branch's commit list
//! calls for a new job.

use vstd::prelude::*;

use crate::github::{Comment, Commit, Notification, PullRequest, Repository, UserAssociation};
use crate::model::{Job, MasterBuild, NewJob, NewMasterBuild};
use crate::store::JobStore;
use crate::time::Timestamp;

verus! {

/// Who may request a benchmark, where, and with which words.
#[derive(Debug)]
pub struct IngestConfig {
    /// Least association with the repository that a requester needs.
    pub minimum_association: UserAssociation,
    /// Full names of the repositories that benchmarks are run for.
    pub tracked_repositories: Vec<String>,
    /// Text that a comment must contain to request a benchmark.
    pub trigger_token: String,
}

impl IngestConfig {
    /// Tracked repository names are never empty.
    pub open spec fn wf(&self) -> bool {
        forall|i: int|
            0 <= i < self.tracked_repositories@.len()
                ==> #[trigger] self.tracked_repositories@[i]@.len() > 0
    }

    /// Whether `name` is one of the tracked repositories.
    pub open spec fn tracks(&self, name: Seq<char>) -> bool {
        exists|i: int|
            0 <= i < self.tracked_repositories@.len() && #[trigger] self.tracked_repositories@[i]@
                == name
    }

    /// Whether `name` is one of the tracked repositories.
    pub fn is_tracked(&self, name: &String) -> (r: bool)
        ensures
            r == self.tracks(name@),
    {
        let mut i: usize = 0;
        while i < self.tracked_repositories.len()
            invariant
                0 <= i <= self.tracked_repositories@.len(),
                forall|k: int| 0 <= k < i ==> #[trigger] self.tracked_repositories@[k]@ != name@,
            decreases self.tracked_repositories@.len() - i,
        {
            if self.tracked_repositories[i] == *name {
                return true;
            }
            i += 1;
        }
        false
    }
}

/// Whether `part` occurs in `text` as a contiguous run.
pub open spec fn has_substring(text: Seq<char>, part: Seq<char>) -> bool {
    exists|i: int|
        0 <= i && i + part.len() <= text.len() && #[trigger] text.subrange(i, i + part.len())
            == part
}

/// Relies on std's `str::contains` with a `&str` pattern: whether `part`
/// occurs in `text`.
#[verifier::external_body]
fn contains_text(text: &str, part: &str) -> (r: bool)
    ensures
        r == has_substring(text@, part@),
{
    text.contains(part)
}

/// Whether comment `c`, on a notification last read at `last_read_at` about
/// repository `repository`, requests a benchmark under `config`.
pub open spec fn comment_triggers(
    config: IngestConfig,
    last_read_at: Option<Timestamp>,
    repository: Seq<char>,
    c: Comment,
) -> bool {
    &&& c.author_association.rank() >= config.minimum_association.rank()
    &&& (last_read_at.is_none() || c.created_at.micros > last_read_at.unwrap().micros)
    &&& config.tracks(repository)
    &&& has_substring(c.body@, config.trigger_token@)
}

/// Whether comment `c` requests a benchmark on `notification`.
pub fn comment_requests_benchmark(
    config: &IngestConfig,
    notification: &Notification,
    c: &Comment,
) -> (r: bool)
    ensures
        r == comment_triggers(*config, notification.last_read_at, notification.repository.full_name@, *c),
{
    let fresh = match notification.last_read_at {
        Some(t) => t.is_before(&c.created_at),
        None => true,
    };
    c.author_association >= config.minimum_association && fresh && config.is_tracked(
        &notification.repository.full_name,
    ) && contains_text(c.body.as_str(), config.trigger_token.as_str())
}

/// Whether some comment of `comments` requests a benchmark on `notification`.
pub open spec fn any_triggers(config: IngestConfig, notification: Notification, comments: Seq<Comment>) -> bool {
    exists|i: int|
        0 <= i < comments.len() && #[trigger] comment_triggers(
            config,
            notification.last_read_at,
            notification.repository.full_name@,
            comments[i],
        )
}

/// The job that `notification` calls for, given its pull request (when
/// one could be had) and that pull request's comments.
///
/// A job is staged when the subject is a pull request and some comment
/// requests it; it benchmarks the merge commit and reports to the thread.
pub fn notification_job(
    config: &IngestConfig,
    notification: &Notification,
    pull_request: &Option<PullRequest>,
    comments: &Vec<Comment>,
) -> (r: Option<NewJob>)
    ensures
        r.is_some() == (notification.is_pull_request() && pull_request.is_some() && any_triggers(
            *config,
            *notification,
            comments@,
        )),
        r.is_some() ==> {
            &&& r.unwrap().repository == notification.repository.full_name
            &&& r.unwrap().hash == Some(pull_request.unwrap().merge_commit_sha)
            &&& r.unwrap().comments_url == Some(pull_request.unwrap().comments_url)
        },
{
    if !(notification.subject.kind == crate::github::SubjectType::PullRequest) {
        return None;
    }
    let pr = match pull_request {
        Some(pr) => pr,
        None => return None,
    };
    let mut i: usize = 0;
    while i < comments.len()
        invariant
            0 <= i <= comments@.len(),
            notification.is_pull_request(),
            pull_request.is_some() && pull_request.unwrap() == *pr,
            forall|k: int|
                0 <= k < i ==> !#[trigger] comment_triggers(
                    *config,
                    notification.last_read_at,
                    notification.repository.full_name@,
                    comments@[k],
                ),
        decreases comments@.len() - i,
    {
        if comment_requests_benchmark(config, notification, &comments[i]) {
            assert(comments@[i as int] == comments[i as int]);
            assert(any_triggers(*config, *notification, comments@));
            return Some(
                NewJob::new(
                    notification.repository.full_name.clone(),
                    Some(pr.comments_url.clone()),
                    Some(pr.merge_commit_sha.clone()),
                ),
            );
        }
        i += 1;
    }
    None
}


/// The hash of the checkpoint, if there is one.
pub open spec fn checkpoint_hash(latest: Option<MasterBuild>) -> Option<Seq<char>> {
    match latest {
        Some(b) => Some(b.hash@),
        None => None,
    }
}

/// The commit hashes of a commit list.
pub open spec fn commit_hashes(commits: Seq<Commit>) -> Seq<Seq<char>> {
    commits.map_values(|c: Commit| c.sha@)
}

/// The commit to benchmark, given the last checkpoint and the commit list
/// (newest first): the newest commit, unless there is none or it is the
/// checkpoint itself.
pub open spec fn commit_decision(checkpoint: Option<Seq<char>>, hashes: Seq<Seq<char>>) -> Option<
    Seq<char>,
> {
    if hashes.len() == 0 {
        None
    } else if checkpoint == Some(hashes[0]) {
        None
    } else {
        Some(hashes[0])
    }
}

/// The commit that the tracked branch calls for a job on, if any.
pub fn master_decision(latest: &Option<MasterBuild>, commits: &Vec<Commit>) -> (r: Option<String>)
    ensures
        r.is_some() == commit_decision(checkpoint_hash(*latest), commit_hashes(commits@)).is_some(),
        r.is_some() ==> r.unwrap()@ == commit_decision(
            checkpoint_hash(*latest),
            commit_hashes(commits@),
        ).unwrap(),
{
    if commits.len() == 0 {
        return None;
    }
    let newest = &commits[0];
    match latest {
        Some(build) => {
            if build.hash == newest.sha {
                return None;
            }
        },
        None => {},
    }
    Some(newest.sha.clone())
}

/// Once the newest commit has been staged and recorded as the checkpoint,
/// the same commit list calls for nothing more.
pub proof fn lemma_commit_dedup(checkpoint: Option<Seq<char>>, hashes: Seq<Seq<char>>)
    ensures
        commit_decision(checkpoint, hashes) matches Some(h) ==> commit_decision(Some(h), hashes)
            is None,
{
}

/// The last checkpoint of a log, if any.
pub open spec fn latest_checkpoint(builds: Seq<MasterBuild>) -> Option<MasterBuild> {
    if builds.len() == 0 {
        None
    } else {
        Some(builds.last())
    }
}

/// Check the tracked branch: when its newest commit is not the last
/// checkpoint, stage a job for it (no result target) and, in the same
/// step, make it the new checkpoint. Returns the id of the staged job.
/// When no fresh ids are left for both, nothing is staged or recorded.
pub fn process_master(store: &mut JobStore, repository: &Repository, commits: &Vec<Commit>) -> (r:
    Option<i32>)
    requires
        old(store).wf(),
        repository.full_name@.len() > 0,
    ensures
        final(store).wf(),
        ({
            let decision = commit_decision(
                checkpoint_hash(latest_checkpoint(old(store).checkpoints())),
                commit_hashes(commits@),
            );
            let room = old(store).next_job_id() < i32::MAX && old(store).next_build_id()
                < i32::MAX;
            &&& decision.is_none() ==> r.is_none() && *final(store) == *old(store)
            &&& decision.is_some() && !room ==> r.is_none() && *final(store) == *old(store)
            &&& decision.is_some() && room ==> {
                &&& r == Some(old(store).next_job_id())
                &&& final(store).rows().len() == old(store).rows().len() + 1
                &&& final(store).rows().drop_last() == old(store).rows()
                &&& final(store).rows().last().id == old(store).next_job_id()
                &&& final(store).rows().last().repository == repository.full_name
                &&& final(store).rows().last().comments_url.is_none()
                &&& final(store).rows().last().hash.is_some()
                &&& final(store).rows().last().hash.unwrap()@ == decision.unwrap()
                &&& final(store).rows().last().started_at.is_none()
                &&& final(store).checkpoints().len() == old(store).checkpoints().len() + 1
                &&& final(store).checkpoints().drop_last() == old(store).checkpoints()
                &&& final(store).checkpoints().last().id == old(store).next_build_id()
                &&& final(store).checkpoints().last().hash@ == decision.unwrap()
            }
            &&& commits@.len() > 0 && (decision.is_none() || room) ==> {
                &&& checkpoint_hash(latest_checkpoint(final(store).checkpoints())) == Some(
                    commit_hashes(commits@)[0],
                )
                &&& commit_decision(
                    checkpoint_hash(latest_checkpoint(final(store).checkpoints())),
                    commit_hashes(commits@),
                ) is None
            }
        }),
{
    let latest = MasterBuild::latest(store);
    let hash = match master_decision(&latest, commits) {
        Some(h) => h,
        None => return None,
    };
    if !store.can_stage() {
        return None;
    }
    let ghost before = *store;
    let id = NewJob::new(repository.full_name.clone(), None, Some(hash.clone())).insert(store);
    let ghost staged = *store;
    NewMasterBuild::new(hash).insert(store);
    proof {
        assert(store.rows().drop_last() =~= before.rows());
        assert(store.checkpoints().drop_last() =~= before.checkpoints());
        assert(staged.next_build_id() == before.next_build_id());
    }
    id
}

/// Handle one notification: stage the job it calls for, if any (see
/// `notification_job`). Returns the id of the staged job.
pub fn process_notification(
    store: &mut JobStore,
    config: &IngestConfig,
    notification: &Notification,
    pull_request: &Option<PullRequest>,
    comments: &Vec<Comment>,
) -> (r: Option<i32>)
    requires
        old(store).wf(),
        config.wf(),
    ensures
        final(store).wf(),
        final(store).checkpoints() == old(store).checkpoints(),
        !(notification.is_pull_request() && pull_request.is_some() && any_triggers(
            *config,
            *notification,
            comments@,
        )) ==> r.is_none() && *final(store) == *old(store),
        notification.is_pull_request() && pull_request.is_some() && any_triggers(
            *config,
            *notification,
            comments@,
        ) && old(store).next_job_id() == i32::MAX ==> r.is_none() && *final(store) == *old(store),
        notification.is_pull_request() && pull_request.is_some() && any_triggers(
            *config,
            *notification,
            comments@,
        ) && old(store).next_job_id() < i32::MAX ==> {
            &&& r == Some(old(store).next_job_id())
            &&& final(store).rows() == old(store).rows().push(
                Job {
                    id: old(store).next_job_id(),
                    repository: notification.repository.full_name,
                    hash: Some(pull_request.unwrap().merge_commit_sha),
                    comments_url: Some(pull_request.unwrap().comments_url),
                    started_at: None,
                },
            )
        },
{
    match notification_job(config, notification, pull_request, comments) {
        Some(job) => {
            job.insert(store)
        },
        None => None,
    }
}
} // verus!
