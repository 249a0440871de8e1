use k8s_ai_operator::action::{classify, determine_action, is_update};
use k8s_ai_operator::aioperator::{apply, NO_BACKUP};
use k8s_ai_operator::annotations::AnnotationSnapshot;
use k8s_ai_operator::crd::{AiOperator, AiOperatorAction, AiOperatorSpec, AiOperatorStatus};
use k8s_ai_operator::error::AiOperatorError;
use k8s_ai_operator::fingerprint::create_hash;

fn demo(finalizers: &[&str], deletion_requested: bool) -> AiOperator {
    AiOperator {
        name: "demo".to_string(),
        namespace: Some("ns1".to_string()),
        finalizers: finalizers.iter().map(|entry| entry.to_string()).collect(),
        deletion_requested,
        spec: AiOperatorSpec { prompt: "Hello".to_string() },
        status: None,
    }
}

fn recorded(state_hash: &str) -> Option<AnnotationSnapshot> {
    Some(AnnotationSnapshot::new().insert("state_hash".to_string(), state_hash.to_string()))
}

#[test]
fn deletion_marker_means_delete_whatever_else_holds() {
    for finalizer_present in [false, true] {
        for (previous, current) in [("a", "a"), ("a", "b")] {
            assert_eq!(
                determine_action(true, finalizer_present, previous, current),
                AiOperatorAction::Delete
            );
        }
    }
}

#[test]
fn missing_finalizer_means_create() {
    assert_eq!(determine_action(false, false, "a", "a"), AiOperatorAction::Create);
    assert_eq!(determine_action(false, false, "a", "b"), AiOperatorAction::Create);
}

#[test]
fn unchanged_fingerprint_means_noop() {
    assert_eq!(determine_action(false, true, "a", "a"), AiOperatorAction::NoOp);
}

#[test]
fn changed_fingerprint_means_update() {
    assert_eq!(determine_action(false, true, "a", "b"), AiOperatorAction::Update);
    assert_eq!(determine_action(false, true, "N/A", "a"), AiOperatorAction::Update);
}

#[test]
fn is_update_without_snapshot_is_true() {
    assert!(is_update(&None, "demo", "Hello"));
}

#[test]
fn is_update_without_recorded_key_is_true() {
    let snapshot = Some(AnnotationSnapshot::new().insert("owner".to_string(), "x".to_string()));
    assert!(is_update(&snapshot, "demo", "Hello"));
}

#[test]
fn is_update_compares_the_fingerprints() {
    let same = recorded("1c61f5f70cda2a7724b5ea78772624e96775122f4f196133e8b362c90209f97a");
    assert!(!is_update(&same, "demo", "Hello"));
    assert!(is_update(&same, "demo", "Hello again"));
    assert!(is_update(&same, "other", "Hello"));
    assert!(is_update(&recorded("stale"), "demo", "Hello"));
}

#[test]
fn scenario_new_resource_is_created() {
    let aiop = demo(&[], false);
    assert_eq!(classify(&aiop, &None), AiOperatorAction::Create);
}

#[test]
fn scenario_guarded_resource_marked_for_removal_is_deleted() {
    let aiop = demo(&["aioperator/finalizer"], true);
    assert_eq!(classify(&aiop, &None), AiOperatorAction::Delete);
    let fingerprint = create_hash("demo", "Hello".to_string());
    assert_eq!(classify(&aiop, &recorded(&fingerprint)), AiOperatorAction::Delete);
}

#[test]
fn classify_guarded_resource_by_its_fingerprint() {
    let aiop = demo(&["aioperator/finalizer"], false);
    let fingerprint = create_hash("demo", "Hello".to_string());
    assert_eq!(classify(&aiop, &recorded(&fingerprint)), AiOperatorAction::NoOp);
    assert_eq!(classify(&aiop, &recorded("stale")), AiOperatorAction::Update);
    assert_eq!(classify(&aiop, &None), AiOperatorAction::Update);
}

#[test]
fn classify_takes_foreign_finalizers_for_none() {
    let aiop = demo(&["other/guard"], false);
    let fingerprint = create_hash("demo", "Hello".to_string());
    assert_eq!(classify(&aiop, &recorded(&fingerprint)), AiOperatorAction::Create);
}

#[test]
fn apply_records_answer_and_fingerprint() {
    let aiop = demo(&["aioperator/finalizer"], false);
    let status = apply(&aiop, Ok("Hi there".to_string())).unwrap();
    assert_eq!(
        status,
        AiOperatorStatus {
            installed: false,
            configured: 0,
            maintenance: false,
            waiting: false,
            last_backup: "N/A".to_string(),
            answer: Some("Hi there".to_string()),
            state_hash: "1c61f5f70cda2a7724b5ea78772624e96775122f4f196133e8b362c90209f97a"
                .to_string(),
        }
    );
    assert_eq!(NO_BACKUP, "N/A");
}

#[test]
fn apply_keeps_an_empty_answer_as_an_answer() {
    let aiop = demo(&[], false);
    let status = apply(&aiop, Ok(String::new())).unwrap();
    assert_eq!(status.answer, Some(String::new()));
}

#[test]
fn apply_gives_no_status_for_a_failed_completion() {
    let aiop = demo(&["aioperator/finalizer"], false);
    assert_eq!(
        apply(&aiop, Err("timed out".to_string())),
        Err(AiOperatorError::CompletionError("timed out".to_string()))
    );
}
