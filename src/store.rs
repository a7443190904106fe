//! The job store: a table of jobs and a log of master-build checkpoints,
//! with the atomic operations that the lifecycle engine is built on.

use vstd::prelude::*;

use crate::model::{Job, MasterBuild, NewJob, NewMasterBuild, MAX_BENCH_MINUTES};
use crate::lifecycle::JobError;
use crate::time::{Timestamp, MICROS_PER_MINUTE};

verus! {

broadcast use vstd::seq_lib::group_seq_properties;

/// Whether some row carries `id`.
pub open spec fn has_id(rows: Seq<Job>, id: i32) -> bool {
    exists|i: int| 0 <= i < rows.len() && #[trigger] rows[i].id == id
}

/// The row carrying `id`, if any.
pub open spec fn job_of(rows: Seq<Job>, id: i32) -> Option<Job> {
    if has_id(rows, id) {
        Some(rows[choose|i: int| 0 <= i < rows.len() && #[trigger] rows[i].id == id])
    } else {
        None
    }
}

/// The rows that remain once the row carrying `id` is removed.
pub open spec fn without_id(rows: Seq<Job>, id: i32) -> Seq<Job> {
    rows.filter(|j: Job| j.id != id)
}

/// After removing `id` no row carries it, and every other row stays.
pub proof fn lemma_without_id(rows: Seq<Job>, id: i32)
    ensures
        !has_id(without_id(rows, id), id),
        forall|j: Job| rows.contains(j) && j.id != id ==> #[trigger] without_id(rows, id).contains(j),
        forall|j: Job| #[trigger] without_id(rows, id).contains(j) ==> rows.contains(j),
{
    broadcast use vstd::seq_lib::group_filter_ensures;

    let keep = |j: Job| j.id != id;
    assert forall|i: int| 0 <= i < without_id(rows, id).len() implies #[trigger] without_id(
        rows,
        id,
    )[i].id != id by {
        rows.lemma_filter_pred(keep, i);
    }
    assert forall|j: Job| rows.contains(j) && j.id != id implies #[trigger] without_id(
        rows,
        id,
    ).contains(j) by {
        let i = choose|i: int| 0 <= i < rows.len() && rows[i] == j;
        rows.lemma_filter_contains(keep, i);
    }
    assert forall|j: Job| #[trigger] without_id(rows, id).contains(j) implies rows.contains(j) by {
        rows.lemma_filter_contains_rev(keep, j);
    }
}

/// The rows with the claim time of the row carrying `id` set to `at`.
pub open spec fn set_started(rows: Seq<Job>, id: i32, at: Option<Timestamp>) -> Seq<Job> {
    rows.map_values(|j: Job| if j.id == id { j.with_started(at) } else { j })
}

/// Whether a row was claimed strictly before `cutoff`.
pub open spec fn started_before(j: Job, cutoff: Timestamp) -> bool {
    j.started_at.is_some() && j.started_at.unwrap().micros < cutoff.micros
}

/// The rows with every claim older than `cutoff` cleared.
pub open spec fn cleared_before(rows: Seq<Job>, cutoff: Timestamp) -> Seq<Job> {
    rows.map_values(|j: Job| if started_before(j, cutoff) { j.with_started(None) } else { j })
}

/// Jobs and master-build checkpoints.
pub struct JobStore {
    jobs: Vec<Job>,
    builds: Vec<MasterBuild>,
    next_job_id: i32,
    next_build_id: i32,
}

impl JobStore {
    /// The job table, in order of insertion.
    pub closed spec fn rows(&self) -> Seq<Job> {
        self.jobs@
    }

    /// The checkpoint log, in order of insertion.
    pub closed spec fn checkpoints(&self) -> Seq<MasterBuild> {
        self.builds@
    }

    /// The id that the next staged job receives.
    pub closed spec fn next_job_id(&self) -> i32 {
        self.next_job_id
    }

    /// The id that the next checkpoint receives.
    pub closed spec fn next_build_id(&self) -> i32 {
        self.next_build_id
    }

    /// Ids are positive, unique and below the next id to hand out; every
    /// job names a repository; checkpoint ids grow with insertion.
    pub closed spec fn wf(&self) -> bool {
        &&& 0 < self.next_job_id
        &&& 0 < self.next_build_id
        &&& forall|i: int|
            0 <= i < self.jobs@.len() ==> 0 < #[trigger] self.jobs@[i].id < self.next_job_id
        &&& forall|i: int| 0 <= i < self.jobs@.len() ==> #[trigger] self.jobs@[i].repository@.len() > 0
        &&& forall|i: int, k: int|
            0 <= i < k < self.jobs@.len() ==> #[trigger] self.jobs@[i].id != #[trigger] self.jobs@[k].id
        &&& forall|i: int|
            0 <= i < self.builds@.len() ==> 0 < #[trigger] self.builds@[i].id < self.next_build_id
        &&& forall|i: int, k: int|
            0 <= i < k < self.builds@.len() ==> #[trigger] self.builds@[i].id
                < #[trigger] self.builds@[k].id
    }

    /// What well-formedness tells a caller about the job table.
    pub proof fn lemma_ids_unique(&self)
        requires
            self.wf(),
        ensures
            forall|i: int, k: int|
                0 <= i < self.rows().len() && 0 <= k < self.rows().len() && i != k
                    ==> #[trigger] self.rows()[i].id != #[trigger] self.rows()[k].id,
            forall|i: int|
                0 <= i < self.rows().len() ==> #[trigger] self.rows()[i].repository@.len() > 0,
    {
        assert forall|i: int, k: int|
            0 <= i < self.rows().len() && 0 <= k < self.rows().len() && i != k
                implies #[trigger] self.rows()[i].id != #[trigger] self.rows()[k].id by {
            if i > k {
                assert(self.jobs@[k].id != self.jobs@[i].id);
            }
        }
    }

    /// What well-formedness tells a caller about the checkpoint log: ids
    /// grow with insertion and stay below the next id to hand out.
    pub proof fn lemma_build_ids_grow(&self)
        requires
            self.wf(),
        ensures
            forall|i: int, k: int|
                0 <= i < k < self.checkpoints().len() ==> #[trigger] self.checkpoints()[i].id
                    < #[trigger] self.checkpoints()[k].id,
            forall|i: int|
                0 <= i < self.checkpoints().len() ==> #[trigger] self.checkpoints()[i].id
                    < self.next_build_id(),
    {
    }

    /// Whether both a job and a checkpoint can still be given a fresh id.
    pub fn can_stage(&self) -> (r: bool)
        ensures
            r == (self.next_job_id() < i32::MAX && self.next_build_id() < i32::MAX),
    {
        self.next_job_id < i32::MAX && self.next_build_id < i32::MAX
    }

    /// An empty store.
    pub fn new() -> (r: JobStore)
        ensures
            r.wf(),
            r.rows() == Seq::<Job>::empty(),
            r.checkpoints() == Seq::<MasterBuild>::empty(),
            r.next_job_id() == 1,
            r.next_build_id() == 1,
    {
        JobStore { jobs: Vec::new(), builds: Vec::new(), next_job_id: 1, next_build_id: 1 }
    }
}


impl JobStore {
    /// Set the claim time of the job carrying `id` to `at`; a missing id
    /// changes nothing.
    pub fn set_started(&mut self, id: i32, at: Option<Timestamp>)
        requires
            old(self).wf(),
        ensures
            final(self).wf(),
            final(self).rows() == set_started(old(self).rows(), id, at),
            job_of(final(self).rows(), id) == match job_of(old(self).rows(), id) {
                Some(j) => Some(j.with_started(at)),
                None => None,
            },
            final(self).checkpoints() == old(self).checkpoints(),
            final(self).next_job_id() == old(self).next_job_id(),
            final(self).next_build_id() == old(self).next_build_id(),
    {
        let ghost before = *self;
        let mut out: Vec<Job> = Vec::new();
        let mut i: usize = 0;
        while i < self.jobs.len()
            invariant
                *self == *old(self),
                0 <= i <= self.jobs@.len(),
                out@.len() == i,
                forall|k: int|
                    0 <= k < i ==> #[trigger] out@[k] == (if self.jobs@[k].id == id {
                        self.jobs@[k].with_started(at)
                    } else {
                        self.jobs@[k]
                    }),
            decreases self.jobs@.len() - i,
        {
            let j = &self.jobs[i];
            let row = if j.id == id {
                Job {
                    id: j.id,
                    repository: j.repository.clone(),
                    hash: crate::model::clone_text(&j.hash),
                    comments_url: crate::model::clone_text(&j.comments_url),
                    started_at: at,
                }
            } else {
                j.clone()
            };
            out.push(row);
            i += 1;
        }
        assert(out@ =~= set_started(self.jobs@, id, at));
        self.jobs = out;
        proof {
            before.lemma_ids_unique();
            if has_id(before.rows(), id) {
                let k = choose|k: int| 0 <= k < before.rows().len() && #[trigger] before.rows()[k].id == id;
                assert(self.rows()[k].id == id);
                let m = choose|m: int| 0 <= m < self.rows().len() && #[trigger] self.rows()[m].id == id;
                assert(before.rows()[m].id == id);
                assert(m == k);
            } else {
                assert forall|m: int| 0 <= m < self.rows().len() implies #[trigger] self.rows()[m].id != id by {
                    assert(before.rows()[m].id == self.rows()[m].id);
                }
            }
        }
    }

    /// Clear every claim made strictly before `cutoff`.
    pub fn clear_started_before(&mut self, cutoff: Timestamp)
        requires
            old(self).wf(),
        ensures
            final(self).wf(),
            final(self).rows() == cleared_before(old(self).rows(), cutoff),
            final(self).checkpoints() == old(self).checkpoints(),
            final(self).next_job_id() == old(self).next_job_id(),
            final(self).next_build_id() == old(self).next_build_id(),
    {
        let mut out: Vec<Job> = Vec::new();
        let mut i: usize = 0;
        while i < self.jobs.len()
            invariant
                *self == *old(self),
                0 <= i <= self.jobs@.len(),
                out@.len() == i,
                forall|k: int|
                    0 <= k < i ==> #[trigger] out@[k] == (if started_before(self.jobs@[k], cutoff) {
                        self.jobs@[k].with_started(None)
                    } else {
                        self.jobs@[k]
                    }),
            decreases self.jobs@.len() - i,
        {
            let j = &self.jobs[i];
            let stale = match j.started_at {
                Some(t) => t.is_before(&cutoff),
                None => false,
            };
            let row = if stale {
                Job {
                    id: j.id,
                    repository: j.repository.clone(),
                    hash: crate::model::clone_text(&j.hash),
                    comments_url: crate::model::clone_text(&j.comments_url),
                    started_at: None,
                }
            } else {
                j.clone()
            };
            out.push(row);
            i += 1;
        }
        assert(out@ =~= cleared_before(self.jobs@, cutoff));
        self.jobs = out;
    }

    /// Remove the job carrying `id`; a missing id changes nothing.
    pub fn remove(&mut self, id: i32)
        requires
            old(self).wf(),
        ensures
            final(self).wf(),
            final(self).rows() == without_id(old(self).rows(), id),
            !has_id(final(self).rows(), id),
            final(self).checkpoints() == old(self).checkpoints(),
            final(self).next_job_id() == old(self).next_job_id(),
            final(self).next_build_id() == old(self).next_build_id(),
    {
        proof {
            lemma_without_id(self.rows(), id);
        }
        let ghost keep = |j: Job| j.id != id;
        let mut out: Vec<Job> = Vec::new();
        let mut i: usize = 0;
        while i < self.jobs.len()
            invariant
                *self == *old(self),
                self.wf(),
                keep == (|j: Job| j.id != id),
                0 <= i <= self.jobs@.len(),
                out@ == self.jobs@.take(i as int).filter(keep),
                forall|k: int|
                    0 <= k < out@.len() ==> exists|m: int|
                        0 <= m < i && #[trigger] out@[k] == #[trigger] self.jobs@[m],
                forall|a: int, b: int|
                    0 <= a < b < out@.len() ==> #[trigger] out@[a].id != #[trigger] out@[b].id,
            decreases self.jobs@.len() - i,
        {
            proof {
                assert(self.jobs@.take(i as int + 1) =~= self.jobs@.take(i as int).push(self.jobs@[i as int]));
                self.jobs@.take(i as int).lemma_filter_push(self.jobs@[i as int], keep);
            }
            let j = &self.jobs[i];
            if j.id != id {
                let ghost before = out@;
                out.push(j.clone());
                assert forall|k: int| 0 <= k < out@.len() implies exists|m: int|
                    0 <= m < i + 1 && #[trigger] out@[k] == #[trigger] self.jobs@[m] by {
                    if k < before.len() {
                        let m = choose|m: int| 0 <= m < i && before[k] == #[trigger] self.jobs@[m];
                        assert(out@[k] == self.jobs@[m]);
                    } else {
                        assert(out@[k] == self.jobs@[i as int]);
                    }
                }
                assert forall|a: int, b: int| 0 <= a < b < out@.len() implies #[trigger] out@[a].id
                    != #[trigger] out@[b].id by {
                    if b == before.len() {
                        let m = choose|m: int| 0 <= m < i && before[a] == #[trigger] self.jobs@[m];
                        assert(self.jobs@[m].id != self.jobs@[i as int].id);
                    } else {
                        assert(before[a].id != before[b].id);
                    }
                }
            }
            i += 1;
        }
        assert(self.jobs@.take(self.jobs@.len() as int) =~= self.jobs@);
        assert forall|a: int| 0 <= a < out@.len() implies 0 < #[trigger] out@[a].id < self.next_job_id
            && out@[a].repository@.len() > 0 by {
            let m = choose|m: int| 0 <= m < i && out@[a] == #[trigger] self.jobs@[m];
        }
        self.jobs = out;
    }
}


impl JobStore {
    /// Add `job` as a pending row under a fresh id, and return that id.
    /// Once the ids are used up nothing is added and `None` comes back.
    pub fn insert(&mut self, job: NewJob) -> (r: Option<i32>)
        requires
            old(self).wf(),
            job.repository@.len() > 0,
        ensures
            final(self).wf(),
            final(self).checkpoints() == old(self).checkpoints(),
            final(self).next_build_id() == old(self).next_build_id(),
            old(self).next_job_id() < i32::MAX ==> {
                &&& r == Some(old(self).next_job_id())
                &&& final(self).rows() == old(self).rows().push(job.row(old(self).next_job_id()))
                &&& final(self).next_job_id() == old(self).next_job_id() + 1
            },
            old(self).next_job_id() == i32::MAX ==> r.is_none() && *final(self) == *old(self),
    {
        if self.next_job_id == i32::MAX {
            return None;
        }
        let id = self.next_job_id;
        self.jobs.push(
            Job {
                id,
                repository: job.repository,
                hash: job.hash,
                comments_url: job.comments_url,
                started_at: None,
            },
        );
        self.next_job_id = id + 1;
        Some(id)
    }

    /// Append a checkpoint under a fresh id. Once the ids are used up
    /// nothing is added.
    pub fn record_build(&mut self, build: NewMasterBuild)
        requires
            old(self).wf(),
        ensures
            final(self).wf(),
            final(self).rows() == old(self).rows(),
            final(self).next_job_id() == old(self).next_job_id(),
            old(self).next_build_id() < i32::MAX ==> {
                &&& final(self).checkpoints() == old(self).checkpoints().push(
                    MasterBuild { id: old(self).next_build_id(), hash: build.hash },
                )
                &&& final(self).next_build_id() == old(self).next_build_id() + 1
            },
            forall|i: int|
                0 <= i < old(self).checkpoints().len() ==> #[trigger] old(self).checkpoints()[i].id
                    < old(self).next_build_id(),
            old(self).next_build_id() == i32::MAX ==> *final(self) == *old(self),
    {
        if self.next_build_id == i32::MAX {
            return;
        }
        let id = self.next_build_id;
        self.builds.push(MasterBuild { id, hash: build.hash });
        self.next_build_id = id + 1;
    }
}

impl Job {
    /// Get all staged jobs.
    pub fn all(store: &JobStore) -> (r: Vec<Job>)
        ensures
            r@ == store.rows(),
    {
        let mut out: Vec<Job> = Vec::new();
        let mut i: usize = 0;
        while i < store.jobs.len()
            invariant
                0 <= i <= store.jobs@.len(),
                out@ == store.jobs@.take(i as int),
            decreases store.jobs@.len() - i,
        {
            out.push(store.jobs[i].clone());
            proof {
                assert(out@ =~= store.jobs@.take(i as int + 1));
            }
            i += 1;
        }
        assert(out@ =~= store.jobs@);
        out
    }

    /// Load a specific job using its ID.
    pub fn from_id(store: &JobStore, id: i32) -> (r: Option<Job>)
        requires
            store.wf(),
        ensures
            r == job_of(store.rows(), id),
    {
        let mut i: usize = 0;
        while i < store.jobs.len()
            invariant
                store.wf(),
                0 <= i <= store.jobs@.len(),
                forall|k: int| 0 <= k < i ==> #[trigger] store.jobs@[k].id != id,
            decreases store.jobs@.len() - i,
        {
            if store.jobs[i].id == id {
                let j = store.jobs[i].clone();
                proof {
                    let k = choose|k: int| 0 <= k < store.rows().len() && #[trigger] store.rows()[k].id == id;
                    store.lemma_ids_unique();
                    assert(k == i);
                }
                return Some(j);
            }
            i += 1;
        }
        None
    }

    /// Remove a job.
    pub fn delete(self, store: &mut JobStore)
        requires
            old(store).wf(),
        ensures
            final(store).wf(),
            final(store).rows() == without_id(old(store).rows(), self.id),
            !has_id(final(store).rows(), self.id),
            final(store).checkpoints() == old(store).checkpoints(),
            final(store).next_job_id() == old(store).next_job_id(),
            final(store).next_build_id() == old(store).next_build_id(),
    {
        store.remove(self.id);
    }

    /// Mark job as pending for execution.
    pub fn mark_pending(&self, store: &mut JobStore)
        requires
            old(store).wf(),
        ensures
            final(store).wf(),
            final(store).rows() == set_started(old(store).rows(), self.id, None),
            job_of(final(store).rows(), self.id) == match job_of(old(store).rows(), self.id) {
                Some(j) => Some(j.with_started(None)),
                None => None,
            },
            final(store).checkpoints() == old(store).checkpoints(),
            final(store).next_job_id() == old(store).next_job_id(),
            final(store).next_build_id() == old(store).next_build_id(),
    {
        store.set_started(self.id, None);
    }

    /// Mark the job carrying `id` as running since `at`. A second claim
    /// overwrites the time of the first; an unknown id is not found and
    /// changes nothing.
    pub fn mark_started(store: &mut JobStore, id: i32, at: Timestamp) -> (r: Result<(), JobError>)
        requires
            old(store).wf(),
        ensures
            final(store).wf(),
            final(store).checkpoints() == old(store).checkpoints(),
            final(store).next_job_id() == old(store).next_job_id(),
            final(store).next_build_id() == old(store).next_build_id(),
            r is Err <==> !has_id(old(store).rows(), id),
            r is Err ==> r == Err::<(), JobError>(JobError::NotFound) && final(store).rows() == old(
                store,
            ).rows(),
            r is Ok ==> final(store).rows() == set_started(old(store).rows(), id, Some(at)),
            r is Ok ==> job_of(final(store).rows(), id) == Some(
                job_of(old(store).rows(), id).unwrap().with_started(Some(at)),
            ),
    {
        let job = Job::from_id(store, id);
        let r = crate::lifecycle::claim_decision(&job);
        if r.is_ok() {
            store.set_started(id, Some(at));
        }
        r
    }

    /// Remove `started_at` from the jobs claimed more than
    /// `MAX_BENCH_MINUTES` before `now`.
    pub fn update_stale(store: &mut JobStore, now: Timestamp)
        requires
            old(store).wf(),
            now.can_go_back(MAX_BENCH_MINUTES),
        ensures
            final(store).wf(),
            final(store).rows() == cleared_before(old(store).rows(), stale_cutoff(now)),
            final(store).checkpoints() == old(store).checkpoints(),
            final(store).next_job_id() == old(store).next_job_id(),
            final(store).next_build_id() == old(store).next_build_id(),
    {
        let cutoff = now.minus_minutes(MAX_BENCH_MINUTES);
        store.clear_started_before(cutoff);
    }
}

/// Claims made strictly before this point, for a current time `t`, are stale.
pub open spec fn stale_cutoff(t: Timestamp) -> Timestamp {
    Timestamp { micros: (t.micros - MAX_BENCH_MINUTES * MICROS_PER_MINUTE) as i64 }
}

impl NewJob {
    /// Stage the job as a pending row; see `JobStore::insert`.
    pub fn insert(self, store: &mut JobStore) -> (r: Option<i32>)
        requires
            old(store).wf(),
            self.repository@.len() > 0,
        ensures
            final(store).wf(),
            final(store).checkpoints() == old(store).checkpoints(),
            final(store).next_build_id() == old(store).next_build_id(),
            old(store).next_job_id() < i32::MAX ==> {
                &&& r == Some(old(store).next_job_id())
                &&& final(store).rows() == old(store).rows().push(self.row(old(store).next_job_id()))
                &&& final(store).next_job_id() == old(store).next_job_id() + 1
            },
            old(store).next_job_id() == i32::MAX ==> r.is_none() && *final(store) == *old(store),
    {
        store.insert(self)
    }
}

impl MasterBuild {
    /// Get the last master build entry.
    pub fn latest(store: &JobStore) -> (r: Option<MasterBuild>)
        requires
            store.wf(),
        ensures
            store.checkpoints().len() == 0 ==> r.is_none(),
            store.checkpoints().len() > 0 ==> r == Some(store.checkpoints().last()),
            r matches Some(b) ==> forall|i: int|
                0 <= i < store.checkpoints().len() ==> #[trigger] store.checkpoints()[i].id <= b.id,
    {
        proof {
            store.lemma_build_ids_grow();
        }
        if store.builds.len() == 0 {
            None
        } else {
            Some(store.builds[store.builds.len() - 1].clone())
        }
    }
}

impl NewMasterBuild {
    /// Record the checkpoint; see `JobStore::record_build`.
    pub fn insert(self, store: &mut JobStore)
        requires
            old(store).wf(),
        ensures
            final(store).wf(),
            final(store).rows() == old(store).rows(),
            final(store).next_job_id() == old(store).next_job_id(),
            old(store).next_build_id() < i32::MAX ==> final(store).checkpoints() == old(
                store,
            ).checkpoints().push(MasterBuild { id: old(store).next_build_id(), hash: self.hash }),
            old(store).next_build_id() < i32::MAX ==> final(store).next_build_id() == old(
                store,
            ).next_build_id() + 1,
            forall|i: int|
                0 <= i < old(store).checkpoints().len() ==> #[trigger] old(store).checkpoints()[i].id
                    < old(store).next_build_id(),
            old(store).next_build_id() == i32::MAX ==> *final(store) == *old(store),
    {
        store.record_build(self)
    }
}
} // verus!
