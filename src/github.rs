//! Values exchanged with the code-hosting service: notifications, pull
//! requests, comments and commits, as plain data.

use core::cmp::Ordering;
use vstd::prelude::*;

use crate::time::Timestamp;

verus! {

/// Notification of activity on a thread the bot is subscribed to.
#[derive(Debug)]
pub struct Notification {
    pub id: String,
    pub unread: bool,
    pub reason: Reason,
    pub updated_at: Timestamp,
    pub last_read_at: Option<Timestamp>,
    pub subject: Subject,
    pub repository: Repository,
    pub url: String,
    pub subscription_url: String,
}

impl Notification {
    /// Whether the notification's subject is a pull request.
    pub open spec fn is_pull_request(&self) -> bool {
        self.subject.kind == SubjectType::PullRequest
    }

    /// Where to fetch the pull request that the notification is about.
    ///
    /// A notification whose subject is not a pull request has none.
    pub fn pull_request_url(&self) -> (r: Option<String>)
        ensures
            r.is_some() == self.is_pull_request(),
            r.is_some() ==> r.unwrap()@ == self.subject.url@,
    {
        if self.subject.kind == SubjectType::PullRequest {
            Some(self.subject.url.clone())
        } else {
            None
        }
    }
}

/// Notification subject.
#[derive(Debug)]
pub struct Subject {
    pub title: String,
    pub url: String,
    pub latest_comment_url: String,
    pub kind: SubjectType,
}

/// Why a notification was sent.
#[derive(Clone, Copy, Debug, PartialEq, Eq, Structural)]
pub enum Reason {
    Assign,
    Author,
    Comment,
    Invitation,
    Manual,
    Mention,
    ReviewRequested,
    SecurityAlert,
    StateChange,
    Subscribed,
    TeamMention,
}

/// What a notification is about.
#[derive(Clone, Copy, Debug, PartialEq, Eq, Structural)]
pub enum SubjectType {
    PullRequest,
    Commit,
    Issue,
}

/// Subscription to a notification thread.
#[derive(Debug)]
pub struct Subscription {
    pub subscribed: bool,
    pub ignored: bool,
    pub reason: Option<Reason>,
    pub created_at: Timestamp,
    pub url: String,
    pub thread_url: String,
}

/// Repository on the code-hosting service.
#[derive(Debug)]
pub struct Repository {
    pub id: usize,
    pub name: String,
    pub full_name: String,
    pub private: bool,
    pub description: String,
    pub fork: bool,
}

/// Pull request on the code-hosting service.
#[derive(Debug)]
pub struct PullRequest {
    pub url: String,
    pub id: usize,
    pub merge_commit_sha: String,
    pub comments_url: String,
}

/// Comment in a pull request's discussion thread.
#[derive(Debug)]
pub struct Comment {
    pub url: String,
    pub id: usize,
    pub created_at: Timestamp,
    pub updated_at: Timestamp,
    pub author_association: UserAssociation,
    pub body: String,
}

/// Commit on a repository's branch.
#[derive(Debug)]
pub struct Commit {
    pub sha: String,
}

/// A user's association with a repository, from least to most trusted.
#[derive(Clone, Copy, Debug, PartialEq, Eq, Structural)]
pub enum UserAssociation {
    NONE,
    CONTRIBUTOR,
    COLLABORATOR,
    MEMBER,
    OWNER,
}

impl UserAssociation {
    /// Position in the order none < contributor < collaborator < member < owner.
    pub open spec fn rank(self) -> nat {
        match self {
            UserAssociation::NONE => 0,
            UserAssociation::CONTRIBUTOR => 1,
            UserAssociation::COLLABORATOR => 2,
            UserAssociation::MEMBER => 3,
            UserAssociation::OWNER => 4,
        }
    }

    /// Position in the order, as a number.
    pub fn level(&self) -> (r: u8)
        ensures
            r as nat == self.rank(),
    {
        match self {
            UserAssociation::NONE => 0,
            UserAssociation::CONTRIBUTOR => 1,
            UserAssociation::COLLABORATOR => 2,
            UserAssociation::MEMBER => 3,
            UserAssociation::OWNER => 4,
        }
    }

    /// Whether `self` is at or above `minimum` in the order.
    pub fn at_least(&self, minimum: &UserAssociation) -> (r: bool)
        ensures
            r == (self.rank() >= minimum.rank()),
    {
        self.level() >= minimum.level()
    }
}

/// How two ranks compare.
pub open spec fn rank_ordering(a: nat, b: nat) -> Ordering {
    if a < b {
        Ordering::Less
    } else if a == b {
        Ordering::Equal
    } else {
        Ordering::Greater
    }
}

impl PartialOrd for UserAssociation {
    fn partial_cmp(&self, other: &UserAssociation) -> (r: Option<Ordering>) {
        let a = self.level();
        let b = other.level();
        if a < b {
            Some(Ordering::Less)
        } else if a == b {
            Some(Ordering::Equal)
        } else {
            Some(Ordering::Greater)
        }
    }
}

impl vstd::std_specs::cmp::PartialOrdSpecImpl for UserAssociation {
    open spec fn obeys_partial_cmp_spec() -> bool {
        true
    }

    open spec fn partial_cmp_spec(&self, other: &UserAssociation) -> Option<Ordering> {
        Some(rank_ordering(self.rank(), other.rank()))
    }
}

} // verus!
