use mcp_k8s::history::{history_report, parse_i64, rollback_target, ReplicaSetInfo};

fn rs(rev: Option<&str>, image: Option<&str>) -> ReplicaSetInfo {
    ReplicaSetInfo {
        revision: rev.map(|s| s.to_string()),
        change_cause: None,
        image: image.map(|s| s.to_string()),
        replicas: Some(2),
        ready_replicas: Some(1),
        created_at: Some("2024-01-01T00:00:00Z".to_string()),
        has_template: true,
    }
}

#[test]
fn revision_numbers_parse_like_i64() {
    assert_eq!(parse_i64("0"), Some(0));
    assert_eq!(parse_i64("42"), Some(42));
    assert_eq!(parse_i64("+7"), Some(7));
    assert_eq!(parse_i64("-12"), Some(-12));
    assert_eq!(parse_i64("9223372036854775807"), Some(i64::MAX));
    assert_eq!(parse_i64("-9223372036854775808"), Some(i64::MIN));
    assert_eq!(parse_i64("9223372036854775808"), None);
    assert_eq!(parse_i64("99999999999999999999999"), None);
    assert_eq!(parse_i64(""), None);
    assert_eq!(parse_i64("-"), None);
    assert_eq!(parse_i64("1a"), None);
    assert_eq!(parse_i64(" 1"), None);
    assert_eq!("007".parse::<i64>().ok(), parse_i64("007"));
}

#[test]
fn history_lists_revisions_greatest_first() {
    let mut a = rs(Some("1"), Some("app:v1"));
    a.change_cause = Some("initial".to_string());
    let b = rs(Some("2"), None);
    let unannotated = rs(None, Some("x"));
    let bad = rs(Some("two"), Some("y"));
    let report = history_report(&vec![a, unannotated, b, bad]);
    assert_eq!(
        report,
        "Rev 2: image=<unknown> replicas=2/1 created=2024-01-01T00:00:00Z cause=\nRev 1: image=app:v1 replicas=2/1 created=2024-01-01T00:00:00Z cause=initial"
    );
    assert_eq!(history_report(&vec![rs(None, None)]), "No revision history found.");
}

#[test]
fn rollback_picks_first_replica_set_with_revision() {
    let sets = vec![rs(Some("1"), None), rs(Some("3"), None), rs(Some("+3"), None)];
    assert_eq!(rollback_target(&sets, 3), Ok(1));
    assert_eq!(rollback_target(&sets, 2).unwrap_err(), "ReplicaSet with revision 2 not found");
    let mut no_template = rs(Some("5"), None);
    no_template.has_template = false;
    assert_eq!(
        rollback_target(&vec![no_template], 5).unwrap_err(),
        "Target ReplicaSet has no pod template"
    );
    assert_eq!(rollback_target(&vec![], -4).unwrap_err(), "ReplicaSet with revision -4 not found");
}
