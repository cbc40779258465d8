use charradissa::approval::{
    pending_records, record_for, status_of, status_update, with_status, ApprovalOutcome, ApprovalQueue,
    ApprovalStatus, PersistentApprovalQueue,
};
use charradissa::error::CharradissaError;

#[test]
fn approval_status_variants_are_distinguishable() {
    assert_ne!(ApprovalStatus::Pending, ApprovalStatus::Approved);
    assert_ne!(ApprovalStatus::Rejected("a".to_string()), ApprovalStatus::Rejected("b".to_string()));
}

#[test]
fn approval_resolves_on_approve() {
    let mut queue = ApprovalQueue::new(60);
    let (id, mut rx) = queue.create_pending("infra".into(), "delete bucket".into(), serde_json::Value::Object(serde_json::Map::new()));
    queue.resolve(&id, ApprovalOutcome::Approved).unwrap();
    let result = rx.try_recv().unwrap();
    assert_eq!(result, ApprovalOutcome::Approved);
}

#[test]
fn approval_resolves_on_reject() {
    let mut queue = ApprovalQueue::new(60);
    let (id, mut rx) = queue.create_pending("code".into(), "merge PR".into(), serde_json::Value::Object(serde_json::Map::new()));
    queue.resolve(&id, ApprovalOutcome::Rejected("too risky".into())).unwrap();
    let result = rx.try_recv().unwrap();
    assert!(matches!(result, ApprovalOutcome::Rejected(_)));
}

#[test]
fn each_waiter_gets_the_answer_for_its_own_id() {
    let mut queue = ApprovalQueue::new(60);
    let (first, mut rx_first) = queue.create_pending("code".into(), "a".into(), serde_json::Value::Null);
    let (second, mut rx_second) = queue.create_pending("db".into(), "b".into(), serde_json::Value::Null);
    queue.resolve(&second, ApprovalOutcome::Rejected("no".into())).unwrap();
    assert!(rx_first.try_recv().is_err());
    assert_eq!(rx_second.try_recv().unwrap(), ApprovalOutcome::Rejected("no".into()));
    assert_eq!(queue.list_pending(), vec![(first.as_str(), "code", "a")]);
    queue.resolve(&first, ApprovalOutcome::Approved).unwrap();
    assert_eq!(rx_first.try_recv().unwrap(), ApprovalOutcome::Approved);
    assert!(queue.resolve(&first, ApprovalOutcome::Approved).is_err());
}

#[test]
fn taking_an_approval_hands_back_its_waiting_party_and_params() {
    let mut q: ApprovalQueue<u32> = ApprovalQueue::new(60);
    let id = q.enqueue("code".into(), "merge PR".into(), serde_json::Value::Bool(true), 7);
    let other = q.enqueue("db".into(), "migrate".into(), serde_json::Value::Null, 9);
    assert_eq!(id.len(), 36);
    let entry = q.take(&id).expect("a queued approval is taken out");
    assert_eq!(entry.notify, 7);
    assert_eq!(entry.params, serde_json::Value::Bool(true));
    assert_eq!(entry.category, "code");
    assert_eq!(q.list_pending(), vec![(other.as_str(), "db", "migrate")]);
    assert_eq!(q.take(&other).unwrap().notify, 9);
    assert!(q.list_pending().is_empty());
    assert_eq!(status_of(ApprovalOutcome::Approved), ApprovalStatus::Approved);
    assert_eq!(
        status_of(ApprovalOutcome::Rejected("too risky".into())),
        ApprovalStatus::Rejected("too risky".into())
    );
    assert_eq!(q.timeout_minutes(), 60);
}

#[test]
fn resolving_twice_or_unknown_is_an_error() {
    let mut q = ApprovalQueue::new(60);
    let (id, _rx) = q.create_pending("c".into(), "d".into(), serde_json::Value::Null);
    assert!(q.resolve(&id, ApprovalOutcome::Approved).is_ok());
    match q.resolve(&id, ApprovalOutcome::Approved) {
        Err(CharradissaError::Backend(m)) => assert_eq!(m, format!("unknown approval id: {}", id)),
        other => panic!("expected an unknown-id error, got {:?}", other.map(|_| ())),
    }
}

#[test]
fn persistent_queue_urls_and_records() {
    let q = PersistentApprovalQueue::new("http://farga:7500/".to_string());
    let ns = q.namespace_url();
    assert!(ns.starts_with("http://farga:7500"));
    assert_eq!(ns, "http://farga:7500/kv/approval");
    assert_eq!(q.kv_url("abc"), "http://farga:7500/kv/approval/abc");
    let fresh = q.new_record("!room:s", "code", "PR", serde_json::Value::Null);
    assert_eq!(fresh.id.len(), 36);
    assert_eq!(fresh.status, ApprovalStatus::Pending);
    let r = record_for("id-1", "!room:s", "code", "PR", serde_json::Value::Null);
    assert_eq!(r.status, ApprovalStatus::Pending);
    assert_eq!(r.id, "id-1");
    let approved = with_status(r.clone(), ApprovalStatus::Approved);
    assert_eq!(approved.status, ApprovalStatus::Approved);
    assert_eq!(approved.id, "id-1");
    let waiting = pending_records(vec![r, approved]);
    assert_eq!(waiting.len(), 1);
    assert_eq!(waiting[0].status, ApprovalStatus::Pending);
}

#[test]
fn status_update_changes_a_known_record_only() {
    match status_update(None, "gone", ApprovalStatus::Approved) {
        Err(CharradissaError::Backend(m)) => assert_eq!(m, "unknown approval id: gone"),
        other => panic!("unexpected {:?}", other.map(|r| r.id)),
    }
    let r = record_for("id-2", "!room:s", "db", "migration", serde_json::Value::Null);
    let updated = status_update(Some(r), "id-2", ApprovalStatus::Rejected("no".into())).unwrap();
    assert_eq!(updated.id, "id-2");
    assert_eq!(updated.category, "db");
    assert_eq!(updated.status, ApprovalStatus::Rejected("no".into()));
}
