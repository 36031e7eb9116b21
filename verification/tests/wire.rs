use shipstatus::condition::{Applier, Condition};
use shipstatus::patch::Status;
use shipstatus::time::Timestamp;

fn ts() -> Timestamp {
    Timestamp { year: 1996, month: 12, day: 19, hour: 16, minute: 39, second: 57 }
}

fn applier() -> Applier {
    Applier { name: "clux".to_string(), url: Some("https://ci/1".to_string()) }
}

#[test]
fn timestamp_renders_rfc3339_second_precision() {
    assert_eq!(ts().to_rfc3339(), "1996-12-19T16:39:57Z");
    let padded = Timestamp { year: 7, month: 1, day: 2, hour: 3, minute: 4, second: 5 };
    assert_eq!(padded.to_rfc3339(), "0007-01-02T03:04:05Z");
}

#[test]
fn timestamp_parses_back_exactly() {
    assert_eq!(Timestamp::parse_rfc3339("1996-12-19T16:39:57Z"), Some(ts()));
    assert_eq!(Timestamp::parse_rfc3339("1996-12-19T16:39:57"), None);
    assert_eq!(Timestamp::parse_rfc3339("1996-13-19T16:39:57Z"), None);
    assert_eq!(Timestamp::parse_rfc3339("1996-12-19 16:39:57Z"), None);
    assert_eq!(Timestamp::parse_rfc3339("1996-12-19T16:39:5xZ"), None);
    assert_eq!(Timestamp::parse_rfc3339("1996-12-19T16:39:57.123Z"), None);
}

#[test]
fn ok_condition_encodes_expected_document() {
    let cond = Condition::ok(&applier(), ts());
    let encoded = cond.to_json();
    assert!(encoded.contains("\"status\":true"));
    assert!(encoded.contains("\"lastTransitionTime\":\"1996-12-19T16:39:57Z\""));
    let v: serde_json::Value = serde_json::from_str(&encoded).unwrap();
    assert_eq!(v["status"], serde_json::Value::Bool(true));
    assert!(v["reason"].is_null());
    assert!(v["message"].is_null());
    assert_eq!(v["lastTransitionTime"].as_str(), Some("1996-12-19T16:39:57Z"));
    assert_eq!(v["source"]["name"].as_str(), Some("clux"));
    assert_eq!(v["source"]["url"].as_str(), Some("https://ci/1"));
}

#[test]
fn condition_round_trips_through_json() {
    let cond = Condition::bad(&applier(), "ApplyFailure", "yaml was invalid".to_string(), ts());
    let decoded = Condition::from_json(&cond.to_json()).unwrap();
    assert_eq!(decoded.status, cond.status);
    assert_eq!(decoded.reason, cond.reason);
    assert_eq!(decoded.message, cond.message);
    assert_eq!(decoded.last_transition, cond.last_transition);
    assert_eq!(decoded.source.as_ref().unwrap().name, "clux");
    assert_eq!(decoded.source.as_ref().unwrap().url.as_deref(), Some("https://ci/1"));
}

#[test]
fn round_trip_preserves_escaped_text() {
    let msg = "a \"quoted\" path\\with\nnewline\tand tab".to_string();
    let cond = Condition::bad(&applier(), "Oops", msg.clone(), ts());
    let encoded = cond.to_json();
    // an independent JSON reader sees the same text
    let v: serde_json::Value = serde_json::from_str(&encoded).unwrap();
    assert_eq!(v["message"].as_str(), Some(msg.as_str()));
    // and so does this library's own reader
    let decoded = Condition::from_json(&encoded).unwrap();
    assert_eq!(decoded.message.as_deref(), Some(msg.as_str()));
}

#[test]
fn decoder_rejects_what_the_encoder_never_writes() {
    assert!(Condition::from_json("{}").is_none());
    assert!(Condition::from_json("").is_none());
    let cond = Condition::ok(&applier(), ts());
    let mut encoded = cond.to_json();
    encoded.push(' ');
    assert!(Condition::from_json(&encoded).is_none());
}

#[test]
fn generate_ok_document_omits_other_phases_and_summary_flags() {
    let st = Status::new("foo".to_string(), "dev".to_string(), applier());
    let body = st.update_generate_true(ts()).to_json();
    let v: serde_json::Value = serde_json::from_str(&body).unwrap();
    let conditions = v["status"]["conditions"].as_object().unwrap();
    assert!(conditions.contains_key("generated"));
    assert!(!conditions.contains_key("applied"));
    assert!(!conditions.contains_key("rolledout"));
    let summary = v["status"]["summary"].as_object().unwrap();
    assert_eq!(
        summary["lastSuccessfulGenerate"].as_str(),
        Some("1996-12-19T16:39:57Z")
    );
    assert!(!summary.contains_key("reason"));
    assert!(!summary.contains_key("status"));
    assert!(!summary.contains_key("lastApply"));
    assert!(!summary.contains_key("upgradeReason"));
}

#[test]
fn rollout_ok_document_carries_an_explicit_null_reason() {
    let st = Status::new("foo".to_string(), "dev".to_string(), applier());
    let body = st.update_rollout_true(ts()).to_json();
    let v: serde_json::Value = serde_json::from_str(&body).unwrap();
    let summary = v["status"]["summary"].as_object().unwrap();
    assert!(summary.contains_key("reason"));
    assert!(summary["reason"].is_null());
    assert_eq!(summary["status"], serde_json::Value::Bool(true));
    assert_eq!(summary["lastRollout"].as_str(), Some("1996-12-19T16:39:57Z"));
    assert_eq!(summary["lastSuccessfulRollout"].as_str(), Some("1996-12-19T16:39:57Z"));
}

#[test]
fn apply_fail_document_sets_exactly_its_fields() {
    let st = Status::new("foo".to_string(), "dev".to_string(), applier());
    let body = st
        .update_apply_false(
            "bump-version".to_string(),
            "ImagePullError",
            "image not found".to_string(),
            ts(),
        )
        .to_json();
    let v: serde_json::Value = serde_json::from_str(&body).unwrap();
    let conditions = v["status"]["conditions"].as_object().unwrap();
    assert!(conditions.contains_key("applied"));
    assert!(!conditions.contains_key("generated"));
    assert_eq!(conditions["applied"]["reason"].as_str(), Some("ImagePullError"));
    assert_eq!(conditions["applied"]["status"], serde_json::Value::Bool(false));
    let summary = v["status"]["summary"].as_object().unwrap();
    assert_eq!(summary["lastApply"].as_str(), Some("1996-12-19T16:39:57Z"));
    assert!(!summary.contains_key("lastSuccessfulApply"));
    assert_eq!(summary["reason"].as_str(), Some("image not found"));
    assert_eq!(summary["status"], serde_json::Value::Bool(false));
    assert_eq!(summary["upgradeReason"].as_str(), Some("bump-version"));
}
