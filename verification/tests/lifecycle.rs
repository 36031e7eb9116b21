use shipstatus::condition::{Applier, BuildEnv, Condition, ManifestStatus};
use shipstatus::error::{check_ready, classify_store_error, StatusError};
use shipstatus::patch::{FieldPatch, Status};
use shipstatus::time::Timestamp;

fn ts() -> Timestamp {
    Timestamp { year: 1996, month: 12, day: 19, hour: 16, minute: 39, second: 57 }
}

fn later() -> Timestamp {
    Timestamp { year: 1996, month: 12, day: 19, hour: 17, minute: 2, second: 3 }
}

fn applier() -> Applier {
    Applier { name: "clux".to_string(), url: None }
}

fn empty_env() -> BuildEnv {
    BuildEnv {
        build_url: None,
        job_name: None,
        build_number: None,
        circle_build_url: None,
        circle_job: None,
        circle_build_num: None,
        user: None,
    }
}

#[test]
fn condition_ok_carries_no_reason() {
    let cond = Condition::ok(&applier(), ts());
    assert!(cond.status);
    assert!(cond.reason.is_none());
    assert!(cond.message.is_none());
    assert_eq!(cond.last_transition, ts());
    assert_eq!(cond.source.as_ref().unwrap().name, "clux");
}

#[test]
fn condition_bad_carries_reason_and_message() {
    let cond = Condition::bad(&applier(), "ImagePullError", "image not found".to_string(), ts());
    assert!(!cond.status);
    assert_eq!(cond.reason.as_deref(), Some("ImagePullError"));
    assert_eq!(cond.message.as_deref(), Some("image not found"));
    assert_eq!(cond.last_transition, ts());
}

#[test]
fn generate_ok_patch_touches_only_its_fields() {
    let st = Status::new("foo".to_string(), "dev".to_string(), applier());
    let p = st.update_generate_true(ts());
    assert_eq!(p.summary.last_successful_generate, Some(ts()));
    assert!(p.summary.last_apply.is_none());
    assert!(p.summary.last_successful_apply.is_none());
    assert!(p.summary.last_rollout.is_none());
    assert!(p.summary.last_successful_rollout.is_none());
    assert!(matches!(p.summary.reason, FieldPatch::Untouched));
    assert!(p.summary.status.is_none());
    assert!(p.summary.upgrade_reason.is_none());
    assert!(p.condition.status);
}

#[test]
fn rollout_ok_patch_clears_reason_explicitly() {
    let st = Status::new("foo".to_string(), "dev".to_string(), applier());
    let p = st.update_rollout_true(ts());
    assert!(matches!(p.summary.reason, FieldPatch::Clear));
    assert_eq!(p.summary.status, Some(true));
    assert_eq!(p.summary.last_rollout, Some(ts()));
    assert_eq!(p.summary.last_successful_rollout, Some(ts()));
}

#[test]
fn generate_on_fresh_record() {
    let st = Status::new("foo".to_string(), "dev".to_string(), applier());
    let before = ManifestStatus::default();
    let p = st.update_generate_true(ts());
    let after = before.apply_patch(&p);
    assert!(after.conditions.generated.as_ref().unwrap().status);
    assert!(after.conditions.applied.is_none());
    assert!(after.conditions.rolledout.is_none());
    let summary = after.summary.as_ref().unwrap();
    assert_eq!(summary.last_successful_generate, Some(ts()));
    assert!(summary.last_apply.is_none());
}

#[test]
fn failed_apply_records_failure_and_keeps_generated() {
    let st = Status::new("foo".to_string(), "dev".to_string(), applier());
    let s0 = ManifestStatus::default();
    let s1 = s0.apply_patch(&st.update_generate_true(ts()));
    let generated_before = s1.conditions.generated.as_ref().unwrap().last_transition;
    let p = st.update_apply_false(
        "bump-version".to_string(),
        "ImagePullError",
        "image not found".to_string(),
        later(),
    );
    let s2 = s1.apply_patch(&p);
    let applied = s2.conditions.applied.as_ref().unwrap();
    assert!(!applied.status);
    assert_eq!(applied.reason.as_deref(), Some("ImagePullError"));
    let summary = s2.summary.as_ref().unwrap();
    assert!(!summary.status);
    assert_eq!(summary.reason.as_deref(), Some("image not found"));
    assert_eq!(summary.upgrade_reason.as_deref(), Some("bump-version"));
    assert_eq!(summary.last_apply, Some(later()));
    assert!(summary.last_successful_apply.is_none());
    assert_eq!(
        s2.conditions.generated.as_ref().unwrap().last_transition,
        generated_before
    );
    assert!(s2.conditions.generated.as_ref().unwrap().status);
}

#[test]
fn rollout_success_clears_prior_failure_reason() {
    let st = Status::new("foo".to_string(), "dev".to_string(), applier());
    let s0 = ManifestStatus::default();
    let s1 = s0.apply_patch(&st.update_apply_false(
        "bump-version".to_string(),
        "ImagePullError",
        "image not found".to_string(),
        ts(),
    ));
    assert_eq!(s1.summary.as_ref().unwrap().reason.as_deref(), Some("image not found"));
    let s2 = s1.apply_patch(&st.update_rollout_true(later()));
    let summary = s2.summary.as_ref().unwrap();
    assert!(summary.reason.is_none());
    assert!(summary.status);
    let applied = s2.conditions.applied.as_ref().unwrap();
    assert!(!applied.status);
    assert_eq!(applied.reason.as_deref(), Some("ImagePullError"));
    assert_eq!(applied.last_transition, ts());
}

#[test]
fn generate_failure_sets_summary_reason() {
    let st = Status::new("foo".to_string(), "dev".to_string(), applier());
    let p = st.update_generate_false("EvalError", "secrets failed to resolve".to_string(), ts());
    let after = ManifestStatus::default().apply_patch(&p);
    let summary = after.summary.as_ref().unwrap();
    assert!(!summary.status);
    assert_eq!(summary.reason.as_deref(), Some("secrets failed to resolve"));
    assert!(summary.last_successful_generate.is_none());
    let generated = after.conditions.generated.as_ref().unwrap();
    assert!(!generated.status);
    assert_eq!(generated.reason.as_deref(), Some("EvalError"));
}

#[test]
fn rollout_failure_keeps_last_successful_rollout() {
    let st = Status::new("foo".to_string(), "dev".to_string(), applier());
    let s1 = ManifestStatus::default().apply_patch(&st.update_rollout_true(ts()));
    let s2 = s1.apply_patch(&st.update_rollout_false(
        "RolloutTimeout",
        "deploy did not settle".to_string(),
        later(),
    ));
    let summary = s2.summary.as_ref().unwrap();
    assert_eq!(summary.last_successful_rollout, Some(ts()));
    assert_eq!(summary.last_rollout, Some(later()));
    assert!(!summary.status);
    assert_eq!(summary.reason.as_deref(), Some("deploy did not settle"));
}

#[test]
fn apply_success_records_upgrade_reason() {
    let st = Status::new("foo".to_string(), "dev".to_string(), applier());
    let after = ManifestStatus::default().apply_patch(&st.update_apply_true(
        "chart bump".to_string(),
        ts(),
    ));
    let summary = after.summary.as_ref().unwrap();
    assert_eq!(summary.last_apply, Some(ts()));
    assert_eq!(summary.last_successful_apply, Some(ts()));
    assert_eq!(summary.upgrade_reason.as_deref(), Some("chart bump"));
    assert!(summary.reason.is_none());
}

#[test]
fn infer_prefers_first_build_server() {
    let mut env = empty_env();
    env.build_url = Some("https://ci/build/42".to_string());
    env.job_name = Some("deploy".to_string());
    env.build_number = Some("42".to_string());
    env.user = Some("someone".to_string());
    let a = Applier::infer(&env);
    assert_eq!(a.name, "deploy#42");
    assert_eq!(a.url.as_deref(), Some("https://ci/build/42"));
}

#[test]
fn infer_falls_back_to_second_build_server() {
    let mut env = empty_env();
    env.circle_build_url = Some("https://circle/9".to_string());
    env.circle_job = Some("release".to_string());
    env.circle_build_num = Some("9".to_string());
    env.user = Some("someone".to_string());
    let a = Applier::infer(&env);
    assert_eq!(a.name, "release#9");
    assert_eq!(a.url.as_deref(), Some("https://circle/9"));
}

#[test]
fn infer_falls_back_to_user() {
    let mut env = empty_env();
    env.user = Some("clux".to_string());
    // an incomplete build-server triple does not win
    env.build_url = Some("https://ci/build/1".to_string());
    let a = Applier::infer(&env);
    assert_eq!(a.name, "clux");
    assert!(a.url.is_none());
}

#[test]
fn infer_never_fails() {
    let a = Applier::infer(&empty_env());
    assert_eq!(a.name, "unknown origin");
    assert!(a.url.is_none());
}

#[test]
fn store_errors_map_into_the_taxonomy() {
    assert!(matches!(
        classify_store_error(Some(404), "not found".to_string()),
        StatusError::NotFound
    ));
    match classify_store_error(Some(500), "boom".to_string()) {
        StatusError::RemoteRejected(m) => assert_eq!(m, "boom"),
        _ => panic!("expected RemoteRejected"),
    }
    match classify_store_error(None, "no response".to_string()) {
        StatusError::RemoteRejected(m) => assert_eq!(m, "no response"),
        _ => panic!("expected RemoteRejected"),
    }
}

#[test]
fn unresolved_artifact_fails_fast() {
    assert!(check_ready(true, true).is_ok());
    assert!(matches!(check_ready(false, true), Err(StatusError::PreconditionViolated)));
    assert!(matches!(check_ready(true, false), Err(StatusError::PreconditionViolated)));
    assert!(matches!(check_ready(false, false), Err(StatusError::PreconditionViolated)));
}

#[test]
fn current_time_is_a_valid_instant() {
    let t = shipstatus::time::now_utc();
    assert!((1..=12).contains(&t.month));
    assert!((1..=31).contains(&t.day));
    assert!(t.hour <= 23);
    assert!(t.minute <= 59);
    assert!(t.second <= 59);
    assert!(t.year <= 9999);
}
