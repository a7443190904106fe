use std::cmp::Ordering;

use perfbot::github::{
    Comment, Commit, Notification, PullRequest, Reason, Repository, Subject, SubjectType,
    UserAssociation,
};
use perfbot::ingest::{
    comment_requests_benchmark, master_decision, notification_job, process_master,
    process_notification, IngestConfig,
};
use perfbot::model::{Job, MasterBuild};
use perfbot::store::JobStore;
use perfbot::time::Timestamp;

fn config() -> IngestConfig {
    IngestConfig {
        minimum_association: UserAssociation::COLLABORATOR,
        tracked_repositories: vec!["alacritty/alacritty".to_string()],
        trigger_token: "@bot".to_string(),
    }
}

fn repository(full_name: &str) -> Repository {
    Repository {
        id: 1,
        name: "alacritty".into(),
        full_name: full_name.into(),
        private: false,
        description: String::new(),
        fork: false,
    }
}

fn notification(kind: SubjectType, last_read_at: Option<i64>) -> Notification {
    Notification {
        id: "n1".into(),
        unread: true,
        reason: Reason::Mention,
        updated_at: Timestamp::from_micros(100),
        last_read_at: last_read_at.map(Timestamp::from_micros),
        subject: Subject {
            title: "Speed things up".into(),
            url: "https://host/pulls/7".into(),
            latest_comment_url: "https://host/comments/9".into(),
            kind,
        },
        repository: repository("alacritty/alacritty"),
        url: "https://host/notifications/n1".into(),
        subscription_url: "https://host/notifications/n1/subscription".into(),
    }
}

fn pull_request() -> PullRequest {
    PullRequest {
        url: "https://host/pulls/7".into(),
        id: 7,
        merge_commit_sha: "m7".into(),
        comments_url: "https://host/issues/7/comments".into(),
    }
}

fn comment(assoc: UserAssociation, body: &str, created_at: i64) -> Comment {
    Comment {
        url: "https://host/comments/1".into(),
        id: 1,
        created_at: Timestamp::from_micros(created_at),
        updated_at: Timestamp::from_micros(created_at),
        author_association: assoc,
        body: body.into(),
    }
}

fn commits(hashes: &[&str]) -> Vec<Commit> {
    hashes.iter().map(|h| Commit { sha: h.to_string() }).collect()
}

#[test]
fn association_order() {
    assert!(UserAssociation::NONE < UserAssociation::CONTRIBUTOR);
    assert!(UserAssociation::CONTRIBUTOR < UserAssociation::COLLABORATOR);
    assert!(UserAssociation::MEMBER < UserAssociation::OWNER);
    assert!(UserAssociation::OWNER >= UserAssociation::COLLABORATOR);
    assert!(UserAssociation::COLLABORATOR.at_least(&UserAssociation::COLLABORATOR));
    assert!(!UserAssociation::CONTRIBUTOR.at_least(&UserAssociation::COLLABORATOR));
    assert_eq!(UserAssociation::MEMBER.level(), 3);
}

#[test]
fn unauthorized_comment_stages_nothing_owner_stages_one() {
    let n = notification(SubjectType::PullRequest, None);
    let pr = Some(pull_request());
    let mut store = JobStore::new();
    let none = vec![comment(UserAssociation::NONE, "@bot run", 50)];
    assert!(notification_job(&config(), &n, &pr, &none).is_none());
    assert!(process_notification(&mut store, &config(), &n, &pr, &none).is_none());
    assert!(Job::all(&store).is_empty());

    let owner = vec![comment(UserAssociation::OWNER, "@bot run", 50)];
    let id = process_notification(&mut store, &config(), &n, &pr, &owner).unwrap();
    let all = Job::all(&store);
    assert_eq!(all.len(), 1);
    assert_eq!(all[0].id, id);
    assert_eq!(all[0].hash.as_deref(), Some("m7"));
    assert_eq!(all[0].comments_url.as_deref(), Some("https://host/issues/7/comments"));
    assert_eq!(all[0].repository, "alacritty/alacritty");
    assert!(all[0].started_at.is_none());
}

#[test]
fn trigger_token_must_occur_in_body() {
    let n = notification(SubjectType::PullRequest, None);
    let cfg = config();
    assert!(comment_requests_benchmark(&cfg, &n, &comment(UserAssociation::OWNER, "please @bot", 1)));
    assert!(!comment_requests_benchmark(&cfg, &n, &comment(UserAssociation::OWNER, "please bot", 1)));
    assert!(!comment_requests_benchmark(&cfg, &n, &comment(UserAssociation::OWNER, "@bo", 1)));
}

#[test]
fn comments_read_before_are_ignored() {
    let n = notification(SubjectType::PullRequest, Some(100));
    let pr = Some(pull_request());
    let old = vec![comment(UserAssociation::OWNER, "@bot", 100)];
    assert!(notification_job(&config(), &n, &pr, &old).is_none());
    let new = vec![comment(UserAssociation::OWNER, "@bot", 100), comment(UserAssociation::MEMBER, "@bot", 101)];
    assert!(notification_job(&config(), &n, &pr, &new).is_some());
}

#[test]
fn untracked_repository_and_non_pull_requests_are_rejected() {
    let pr = Some(pull_request());
    let owner = vec![comment(UserAssociation::OWNER, "@bot run", 50)];
    let mut n = notification(SubjectType::PullRequest, None);
    n.repository = repository("someone/else");
    assert!(notification_job(&config(), &n, &pr, &owner).is_none());
    let issue = notification(SubjectType::Issue, None);
    assert!(issue.pull_request_url().is_none());
    assert!(notification_job(&config(), &issue, &pr, &owner).is_none());
    let n = notification(SubjectType::PullRequest, None);
    assert_eq!(n.pull_request_url().as_deref(), Some("https://host/pulls/7"));
    assert!(notification_job(&config(), &n, &None, &owner).is_none());
}

#[test]
fn new_commit_stages_once_and_advances_checkpoint() {
    let mut store = JobStore::new();
    let repo = repository("alacritty/alacritty");
    let list = commits(&["c3", "c2", "c1"]);
    let id = process_master(&mut store, &repo, &list).unwrap();
    let all = Job::all(&store);
    assert_eq!(all.len(), 1);
    assert_eq!(all[0].id, id);
    assert_eq!(all[0].hash.as_deref(), Some("c3"));
    assert!(all[0].comments_url.is_none());
    assert_eq!(MasterBuild::latest(&store).unwrap().hash, "c3");

    assert!(process_master(&mut store, &repo, &list).is_none());
    assert_eq!(Job::all(&store).len(), 1);
}

#[test]
fn master_decision_cases() {
    assert!(master_decision(&None, &commits(&[])).is_none());
    assert_eq!(master_decision(&None, &commits(&["a", "b"])).as_deref(), Some("a"));
    let last = Some(MasterBuild { id: 4, hash: "a".into() });
    assert!(master_decision(&last, &commits(&["a", "b"])).is_none());
    assert_eq!(master_decision(&last, &commits(&["c", "a"])).as_deref(), Some("c"));
}

#[test]
fn association_partial_cmp() {
    assert_eq!(UserAssociation::NONE.partial_cmp(&UserAssociation::OWNER), Some(Ordering::Less));
    assert_eq!(UserAssociation::MEMBER.partial_cmp(&UserAssociation::MEMBER), Some(Ordering::Equal));
    assert_eq!(
        UserAssociation::COLLABORATOR.partial_cmp(&UserAssociation::CONTRIBUTOR),
        Some(Ordering::Greater)
    );
}

#[test]
fn config_tracks_listed_names_only() {
    let cfg = config();
    assert!(cfg.is_tracked(&"alacritty/alacritty".to_string()));
    assert!(!cfg.is_tracked(&"alacritty/alacritty2".to_string()));
    assert!(!cfg.is_tracked(&String::new()));
}
