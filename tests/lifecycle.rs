use perfbot::lifecycle::{
    begin_submit, claim_decision, finish_submit, jobs, pending_jobs, publish_outcome,
    stale_cutoff_from,
    submit_decision, JobError, SubmitStep,
};
use perfbot::model::{Job, MasterBuild, NewJob, NewMasterBuild, MAX_BENCH_MINUTES};
use perfbot::store::JobStore;
use perfbot::time::{Timestamp, MICROS_PER_MINUTE};

fn stage(store: &mut JobStore, repository: &str, target: Option<&str>) -> i32 {
    NewJob::new(repository.to_string(), target.map(|t| t.to_string()), Some("abc".to_string()))
        .insert(store)
        .expect("ids left")
}

fn minutes(m: i64) -> Timestamp {
    Timestamp::from_micros(m * MICROS_PER_MINUTE)
}

#[test]
fn new_store_is_empty() {
    let store = JobStore::new();
    assert!(Job::all(&store).is_empty());
    assert!(MasterBuild::latest(&store).is_none());
}

#[test]
fn insert_assigns_fresh_pending_rows() {
    let mut store = JobStore::new();
    let a = stage(&mut store, "alacritty/alacritty", None);
    let b = stage(&mut store, "alacritty/alacritty", Some("thread"));
    assert_eq!(a, 1);
    assert_eq!(b, 2);
    let all = Job::all(&store);
    assert_eq!(all.len(), 2);
    assert_eq!(all[1].comments_url.as_deref(), Some("thread"));
    assert_eq!(all[1].hash.as_deref(), Some("abc"));
    assert!(all.iter().all(|j| j.started_at.is_none()));
}

#[test]
fn pending_listing_matches_missing_claim_time() {
    let mut store = JobStore::new();
    let a = stage(&mut store, "r/a", None);
    let b = stage(&mut store, "r/b", None);
    let c = stage(&mut store, "r/c", None);
    Job::mark_started(&mut store, b, minutes(10)).unwrap();
    let listed = jobs(&store);
    let ids: Vec<i32> = listed.iter().map(|j| j.id).collect();
    assert_eq!(ids, vec![a, c]);
    for j in Job::all(&store) {
        assert_eq!(j.started_at.is_none(), ids.contains(&j.id));
    }
}

#[test]
fn pending_jobs_keeps_order_and_filters() {
    let rows = vec![
        Job { id: 3, repository: "x".into(), hash: None, comments_url: None, started_at: None },
        Job {
            id: 4,
            repository: "y".into(),
            hash: None,
            comments_url: None,
            started_at: Some(minutes(1)),
        },
        Job { id: 5, repository: "z".into(), hash: None, comments_url: None, started_at: None },
    ];
    let ids: Vec<i32> = pending_jobs(&rows).iter().map(|j| j.id).collect();
    assert_eq!(ids, vec![3, 5]);
    assert!(pending_jobs(&Vec::new()).is_empty());
}

#[test]
fn claim_twice_keeps_one_row_with_later_time() {
    let mut store = JobStore::new();
    let id = stage(&mut store, "r/a", None);
    Job::mark_started(&mut store, id, minutes(5)).unwrap();
    Job::mark_started(&mut store, id, minutes(7)).unwrap();
    let all = Job::all(&store);
    assert_eq!(all.iter().filter(|j| j.id == id).count(), 1);
    assert_eq!(all.len(), 1);
    assert_eq!(all[0].started_at, Some(minutes(7)));
}

#[test]
fn claim_unknown_id_is_not_found() {
    let mut store = JobStore::new();
    stage(&mut store, "r/a", None);
    assert_eq!(Job::mark_started(&mut store, 42, minutes(1)), Err(JobError::NotFound));
    assert!(Job::all(&store)[0].started_at.is_none());
}

#[test]
fn submit_before_claim_is_invalid_state() {
    let mut store = JobStore::new();
    let id = stage(&mut store, "r/a", Some("thread"));
    assert!(matches!(begin_submit(&store, id, Some("ok".into())), Err(JobError::InvalidState)));
    assert!(matches!(begin_submit(&store, 99, Some("ok".into())), Err(JobError::NotFound)));
}

#[test]
fn submit_with_reachable_target_deletes_job() {
    let mut store = JobStore::new();
    let id = stage(&mut store, "r/a", Some("thread"));
    assert_eq!(id, 1);
    Job::mark_started(&mut store, 1, minutes(3)).unwrap();
    match begin_submit(&store, 1, Some("ok".into())) {
        Ok(SubmitStep::Publish { target, text }) => {
            assert_eq!(target, "thread");
            assert_eq!(text, "ok");
        }
        other => panic!("unexpected step {:?}", other),
    }
    assert_eq!(finish_submit(&mut store, 1, true), Ok(()));
    assert!(Job::from_id(&store, 1).is_none());
}

#[test]
fn submit_with_unreachable_target_returns_job_to_pending() {
    let mut store = JobStore::new();
    stage(&mut store, "r/a", Some("thread"));
    Job::mark_started(&mut store, 1, minutes(3)).unwrap();
    assert!(matches!(begin_submit(&store, 1, Some("ok".into())), Ok(SubmitStep::Publish { .. })));
    assert_eq!(finish_submit(&mut store, 1, false), Err(JobError::PublishFailure));
    let job = Job::from_id(&store, 1).expect("job kept");
    assert!(job.started_at.is_none());
    assert_eq!(jobs(&store).len(), 1);
}

#[test]
fn submit_without_target_completes() {
    let mut store = JobStore::new();
    let id = stage(&mut store, "r/a", None);
    Job::mark_started(&mut store, id, minutes(3)).unwrap();
    assert!(matches!(begin_submit(&store, id, Some("ok".into())), Ok(SubmitStep::Complete)));
    let job = Some(Job::from_id(&store, id).unwrap());
    assert!(matches!(submit_decision(&job, None), Ok(SubmitStep::Complete)));
    assert!(matches!(submit_decision(&None, None), Err(JobError::NotFound)));
}

#[test]
fn reclaim_clears_only_stale_claims() {
    let mut store = JobStore::new();
    let old_job = stage(&mut store, "r/a", None);
    let fresh = stage(&mut store, "r/b", None);
    let edge = stage(&mut store, "r/c", None);
    let idle = stage(&mut store, "r/d", None);
    let now = minutes(1000);
    Job::mark_started(&mut store, old_job, minutes(1000 - 121)).unwrap();
    Job::mark_started(&mut store, fresh, minutes(1000 - 30)).unwrap();
    Job::mark_started(&mut store, edge, minutes(1000 - 120)).unwrap();
    Job::update_stale(&mut store, now);
    let started = |id: i32| Job::from_id(&store, id).unwrap().started_at;
    assert_eq!(started(old_job), None);
    assert_eq!(started(fresh), Some(minutes(970)));
    assert_eq!(started(edge), Some(minutes(880)));
    assert_eq!(started(idle), None);
    assert_eq!(Job::all(&store).len(), 4);
}

#[test]
fn stale_cutoff_is_two_hours_back() {
    assert_eq!(MAX_BENCH_MINUTES, 120);
    assert_eq!(stale_cutoff_from(minutes(500)), Some(minutes(380)));
    assert_eq!(stale_cutoff_from(Timestamp::from_micros(i64::MIN)), None);
    assert_eq!(minutes(10).minus_minutes(3), minutes(7));
}

#[test]
fn mark_started_then_pending_then_delete() {
    let mut store = JobStore::new();
    let id = stage(&mut store, "r/a", None);
    Job::mark_started(&mut store, id, minutes(4)).unwrap();
    let job = Job::from_id(&store, id).unwrap();
    assert_eq!(job.started_at, Some(minutes(4)));
    assert!(job.started_at.is_some());
    assert!(jobs(&store).is_empty());
    job.mark_pending(&mut store);
    assert!(Job::from_id(&store, id).unwrap().started_at.is_none());
    Job::from_id(&store, id).unwrap().delete(&mut store);
    assert!(Job::all(&store).is_empty());
}

#[test]
fn update_stale_keeps_recent_claims() {
    let mut store = JobStore::new();
    let id = stage(&mut store, "r/a", None);
    Job::mark_started(&mut store, id, minutes(200)).unwrap();
    Job::update_stale(&mut store, minutes(320));
    assert_eq!(Job::from_id(&store, id).unwrap().started_at, Some(minutes(200)));
    Job::update_stale(&mut store, minutes(321));
    assert_eq!(Job::from_id(&store, id).unwrap().started_at, None);
}

#[test]
fn claim_and_publish_decisions() {
    let job = Some(Job {
        id: 1,
        repository: "r/a".into(),
        hash: None,
        comments_url: None,
        started_at: None,
    });
    assert_eq!(claim_decision(&job), Ok(()));
    assert_eq!(claim_decision(&None), Err(JobError::NotFound));
    assert_eq!(publish_outcome(true), Ok(()));
    assert_eq!(publish_outcome(false), Err(JobError::PublishFailure));
}

#[test]
fn checkpoints_latest_is_last_recorded() {
    let mut store = JobStore::new();
    NewMasterBuild::new("c1".into()).insert(&mut store);
    NewMasterBuild::new("c2".into()).insert(&mut store);
    let latest = MasterBuild::latest(&store).unwrap();
    assert_eq!(latest.hash, "c2");
    assert_eq!(latest.id, 2);
    NewMasterBuild::new("c1".into()).insert(&mut store);
    let latest = MasterBuild::latest(&store).unwrap();
    assert_eq!(latest.hash, "c1");
    assert_eq!(latest.id, 3);
}

#[test]
fn job_clone_is_equal() {
    let job = Job {
        id: 9,
        repository: "r/a".into(),
        hash: Some("h".into()),
        comments_url: None,
        started_at: Some(Timestamp::from_micros(5)),
    };
    let copy = job.clone();
    assert_eq!(copy.id, 9);
    assert_eq!(copy.repository, "r/a");
    assert_eq!(copy.hash.as_deref(), Some("h"));
    assert_eq!(copy.started_at, Some(Timestamp::from_micros(5)));
}
