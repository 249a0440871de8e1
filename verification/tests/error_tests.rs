use k8s_ai_operator::error::{AiOperatorError, ApiError, ErrorKind, CONFLICT, NOT_FOUND};

fn failure(code: Option<u16>) -> ApiError {
    ApiError { code, message: "the server said no".to_string() }
}

#[test]
fn status_codes_are_the_http_ones() {
    assert_eq!(NOT_FOUND, 404);
    assert_eq!(CONFLICT, 409);
}

#[test]
fn not_found_is_status_404_only() {
    assert!(failure(Some(404)).is_not_found());
    assert!(!failure(Some(409)).is_not_found());
    assert!(!failure(Some(403)).is_not_found());
    assert!(!failure(None).is_not_found());
}

#[test]
fn conflict_is_status_409_only() {
    assert!(failure(Some(409)).is_conflict());
    assert!(!failure(Some(404)).is_conflict());
    assert!(!failure(None).is_conflict());
}

#[test]
fn kinds_follow_the_taxonomy() {
    assert_eq!(
        AiOperatorError::UserInputError("no namespace".to_string()).kind(),
        ErrorKind::Input
    );
    assert_eq!(
        AiOperatorError::KubeError { source: failure(Some(500)) }.kind(),
        ErrorKind::Transport
    );
    assert_eq!(AiOperatorError::KubeError { source: failure(None) }.kind(), ErrorKind::Transport);
    assert_eq!(
        AiOperatorError::KubeError { source: failure(Some(409)) }.kind(),
        ErrorKind::Conflict
    );
    assert_eq!(
        AiOperatorError::CompletionError("timeout".to_string()).kind(),
        ErrorKind::ExternalService
    );
}

#[test]
fn only_input_errors_are_not_retried() {
    assert!(!AiOperatorError::UserInputError("no namespace".to_string()).is_retryable());
    assert!(AiOperatorError::KubeError { source: failure(Some(500)) }.is_retryable());
    assert!(AiOperatorError::KubeError { source: failure(Some(409)) }.is_retryable());
    assert!(AiOperatorError::CompletionError("timeout".to_string()).is_retryable());
}

#[test]
fn messages_name_the_origin_then_the_detail() {
    assert_eq!(
        AiOperatorError::UserInputError("no namespace".to_string()).message(),
        "Invalid AiOperator CRD: no namespace"
    );
    assert_eq!(
        AiOperatorError::KubeError { source: failure(Some(500)) }.message(),
        "Kubernetes Example Operator Error: the server said no"
    );
    assert_eq!(
        AiOperatorError::CompletionError("timeout".to_string()).message(),
        "Completion provider error: timeout"
    );
}
