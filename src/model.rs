//! Rows of the job table and of the master-build checkpoint log.

use vstd::prelude::*;

use crate::time::Timestamp;

verus! {

/// Minutes a claimed job may run before it is considered dead.
pub const MAX_BENCH_MINUTES: i64 = 120;

/// A unit of benchmark work.
///
/// `started_at` is absent while the job waits to be claimed and present
/// (the time of the claim) while a worker runs it.
#[derive(Debug)]
pub struct Job {
    pub id: i32,
    pub repository: String,
    pub hash: Option<String>,
    pub comments_url: Option<String>,
    pub started_at: Option<Timestamp>,
}

/// Copy of an optional string, equal to it.
pub fn clone_text(s: &Option<String>) -> (r: Option<String>)
    ensures
        r == *s,
{
    match s {
        Some(t) => Some(t.clone()),
        None => None,
    }
}

impl Clone for Job {
    fn clone(&self) -> (r: Job)
        ensures
            r == *self,
    {
        Job {
            id: self.id,
            repository: self.repository.clone(),
            hash: clone_text(&self.hash),
            comments_url: clone_text(&self.comments_url),
            started_at: self.started_at,
        }
    }
}

impl Job {
    /// A job is pending while no worker has claimed it.
    pub open spec fn is_pending(self) -> bool {
        self.started_at.is_none()
    }

    /// The same job with its claim time replaced by `at`.
    pub open spec fn with_started(self, at: Option<Timestamp>) -> Job {
        Job {
            id: self.id,
            repository: self.repository,
            hash: self.hash,
            comments_url: self.comments_url,
            started_at: at,
        }
    }
}

/// A job about to be staged; the store gives it its id.
#[derive(Debug)]
pub struct NewJob {
    pub repository: String,
    pub comments_url: Option<String>,
    pub hash: Option<String>,
}

impl NewJob {
    /// Create a new job for insertion.
    pub fn new(repository: String, comments_url: Option<String>, hash: Option<String>) -> (r: Self)
        ensures
            r.repository == repository,
            r.comments_url == comments_url,
            r.hash == hash,
    {
        NewJob { repository, comments_url, hash }
    }

    /// The pending row that staging this job under `id` creates.
    pub open spec fn row(self, id: i32) -> Job {
        Job {
            id,
            repository: self.repository,
            hash: self.hash,
            comments_url: self.comments_url,
            started_at: None,
        }
    }
}

/// An entry of the master-build checkpoint log.
#[derive(Debug)]
pub struct MasterBuild {
    pub id: i32,
    pub hash: String,
}

impl Clone for MasterBuild {
    fn clone(&self) -> (r: MasterBuild)
        ensures
            r == *self,
    {
        MasterBuild { id: self.id, hash: self.hash.clone() }
    }
}

/// A checkpoint about to be recorded; the store gives it its id.
#[derive(Debug)]
pub struct NewMasterBuild {
    pub hash: String,
}

impl NewMasterBuild {
    /// Create a new master build entry.
    pub fn new(hash: String) -> (r: Self)
        ensures
            r.hash == hash,
    {
        NewMasterBuild { hash }
    }
}

} // verus!
