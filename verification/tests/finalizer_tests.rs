use k8s_ai_operator::error::{AiOperatorError, ApiError};
use k8s_ai_operator::finalizer::{add, delete, has_finalizer, settle, FINALIZER};

fn list(entries: &[&str]) -> Vec<String> {
    entries.iter().map(|entry| entry.to_string()).collect()
}

#[test]
fn marker_is_the_controllers_own() {
    assert_eq!(FINALIZER, "aioperator/finalizer");
}

#[test]
fn add_puts_marker_on_empty_list() {
    let mut finalizers = Vec::new();
    add(&mut finalizers);
    assert_eq!(finalizers, list(&["aioperator/finalizer"]));
}

#[test]
fn add_appends_marker_after_other_finalizers() {
    let mut finalizers = list(&["other/guard"]);
    add(&mut finalizers);
    assert_eq!(finalizers, list(&["other/guard", "aioperator/finalizer"]));
}

#[test]
fn add_leaves_a_list_with_the_marker_alone() {
    let mut finalizers = list(&["aioperator/finalizer", "other/guard"]);
    add(&mut finalizers);
    assert_eq!(finalizers, list(&["aioperator/finalizer", "other/guard"]));
}

#[test]
fn add_twice_is_add_once() {
    let mut once = list(&["other/guard"]);
    add(&mut once);
    let mut twice = list(&["other/guard"]);
    add(&mut twice);
    add(&mut twice);
    assert_eq!(once, twice);
}

#[test]
fn delete_clears_every_finalizer() {
    let mut finalizers = list(&["aioperator/finalizer", "other/guard"]);
    delete(&mut finalizers);
    assert!(finalizers.is_empty());
}

#[test]
fn delete_twice_is_delete_once() {
    let mut finalizers = list(&["aioperator/finalizer"]);
    delete(&mut finalizers);
    assert!(finalizers.is_empty());
    delete(&mut finalizers);
    assert!(finalizers.is_empty());
}

#[test]
fn delete_of_empty_list_is_empty() {
    let mut finalizers: Vec<String> = Vec::new();
    delete(&mut finalizers);
    assert!(finalizers.is_empty());
}

#[test]
fn has_finalizer_looks_for_the_exact_marker() {
    assert!(!has_finalizer(&Vec::new()));
    assert!(!has_finalizer(&list(&["other/guard", "aioperator/finalize"])));
    assert!(!has_finalizer(&list(&["aioperator/finalizer2"])));
    assert!(has_finalizer(&list(&["aioperator/finalizer"])));
    assert!(has_finalizer(&list(&["other/guard", "aioperator/finalizer", "x"])));
}

#[test]
fn settle_passes_success_on() {
    assert_eq!(settle(Ok(())), Ok(()));
}

#[test]
fn settle_takes_a_missing_target_for_done() {
    let gone = ApiError { code: Some(404), message: "not found".to_string() };
    assert_eq!(settle(Err(gone)), Ok(()));
}

#[test]
fn settle_hands_other_failures_up() {
    let refused = ApiError { code: Some(500), message: "boom".to_string() };
    assert_eq!(
        settle(Err(refused.clone())),
        Err(AiOperatorError::KubeError { source: refused })
    );
    let unreachable = ApiError { code: None, message: "connection reset".to_string() };
    assert_eq!(
        settle(Err(unreachable.clone())),
        Err(AiOperatorError::KubeError { source: unreachable })
    );
    let conflict = ApiError { code: Some(409), message: "conflict".to_string() };
    assert_eq!(
        settle(Err(conflict.clone())),
        Err(AiOperatorError::KubeError { source: conflict })
    );
}
