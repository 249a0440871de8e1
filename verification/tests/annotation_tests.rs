use k8s_ai_operator::annotations::{
    get_annotations, previous_fingerprint, AnnotationSnapshot, STATE_HASH_KEY,
    UNKNOWN_FINGERPRINT,
};

#[test]
fn names_of_key_and_placeholder() {
    assert_eq!(STATE_HASH_KEY, "state_hash");
    assert_eq!(UNKNOWN_FINGERPRINT, "N/A");
}

#[test]
fn new_snapshot_is_empty() {
    let snapshot = AnnotationSnapshot::new();
    assert_eq!(snapshot.len(), 0);
    assert_eq!(snapshot.get("state_hash"), None);
}

#[test]
fn insert_then_get() {
    let snapshot = AnnotationSnapshot::new()
        .insert("owner".to_string(), "team-a".to_string())
        .insert("state_hash".to_string(), "abc".to_string());
    assert_eq!(snapshot.len(), 2);
    assert_eq!(snapshot.get("state_hash"), Some(&"abc".to_string()));
    assert_eq!(snapshot.get("owner"), Some(&"team-a".to_string()));
    assert_eq!(snapshot.get("missing"), None);
    assert_eq!(snapshot.get("state_has"), None);
}

#[test]
fn insert_replaces_what_was_recorded() {
    let snapshot = AnnotationSnapshot::new()
        .insert("state_hash".to_string(), "old".to_string())
        .insert("owner".to_string(), "team-a".to_string())
        .insert("state_hash".to_string(), "new".to_string());
    assert_eq!(snapshot.len(), 2);
    assert_eq!(snapshot.get("state_hash"), Some(&"new".to_string()));
    assert_eq!(snapshot.get("owner"), Some(&"team-a".to_string()));
}

#[test]
fn clone_holds_the_same_annotations() {
    let snapshot = AnnotationSnapshot::new()
        .insert("state_hash".to_string(), "abc".to_string())
        .insert("owner".to_string(), "team-a".to_string());
    let copy = snapshot.clone();
    assert_eq!(copy.len(), 2);
    assert_eq!(copy.get("state_hash"), Some(&"abc".to_string()));
    assert_eq!(copy.get("owner"), Some(&"team-a".to_string()));
}

#[test]
fn get_annotations_of_no_sibling_is_none() {
    assert!(get_annotations(Vec::new()).is_none());
}

#[test]
fn get_annotations_takes_the_last_sibling() {
    let first = AnnotationSnapshot::new().insert("state_hash".to_string(), "first".to_string());
    let last = AnnotationSnapshot::new().insert("state_hash".to_string(), "last".to_string());
    let chosen = get_annotations(vec![Some(first), None, Some(last)]);
    assert_eq!(chosen.unwrap().get("state_hash"), Some(&"last".to_string()));
}

#[test]
fn get_annotations_of_a_last_sibling_without_annotations_is_none() {
    let first = AnnotationSnapshot::new().insert("state_hash".to_string(), "first".to_string());
    assert!(get_annotations(vec![Some(first), None]).is_none());
}

#[test]
fn previous_fingerprint_defaults_to_the_placeholder() {
    assert_eq!(previous_fingerprint(&None), "N/A");
    let without_key = AnnotationSnapshot::new().insert("owner".to_string(), "x".to_string());
    assert_eq!(previous_fingerprint(&Some(without_key)), "N/A");
    assert_eq!(previous_fingerprint(&Some(AnnotationSnapshot::new())), "N/A");
}

#[test]
fn previous_fingerprint_reads_the_state_hash() {
    let snapshot = AnnotationSnapshot::new()
        .insert("owner".to_string(), "x".to_string())
        .insert("state_hash".to_string(), "abc123".to_string());
    assert_eq!(previous_fingerprint(&Some(snapshot)), "abc123");
}
