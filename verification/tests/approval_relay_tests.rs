use charradissa::daemon::approval_relay::{
    format_ack, parse_resolution_command, request_notice_for, resolution_to_act_on_exec,
    status_payload, ApprovalRequest,
};

#[test]
fn parse_approve_command() {
    assert_eq!(parse_resolution_command("/approve abc123"), Some(("abc123".to_string(), None)));
}

#[test]
fn parse_reject_command_with_reason() {
    assert_eq!(
        parse_resolution_command("/reject abc123 too risky"),
        Some(("abc123".to_string(), Some("too risky".to_string())))
    );
}

#[test]
fn parse_reject_command_without_reason_defaults() {
    assert_eq!(
        parse_resolution_command("/reject abc123"),
        Some(("abc123".to_string(), Some("rejected by operator".to_string())))
    );
}

#[test]
fn parse_reject_command_with_trailing_whitespace_and_no_reason_defaults() {
    assert_eq!(
        parse_resolution_command("/reject abc123 "),
        Some(("abc123".to_string(), Some("rejected by operator".to_string())))
    );
}

#[test]
fn parse_unrecognized_command_returns_none() {
    assert_eq!(parse_resolution_command("hello there"), None);
}

#[test]
fn format_ack_for_approval() {
    assert_eq!(format_ack("abc123", &None), "✅ `abc123` approved.");
}

#[test]
fn format_ack_for_rejection_includes_reason() {
    assert_eq!(format_ack("abc123", &Some("too risky".to_string())), "❌ `abc123` rejected: too risky");
}

#[test]
fn approval_outcome_omits_reason_when_approved() {
    let p = status_payload(&None);
    assert_eq!(p.status, "approved");
    assert!(p.reason.is_none());
}

#[test]
fn approval_outcome_includes_reason_when_rejected() {
    let p = status_payload(&Some("too risky".to_string()));
    assert_eq!(p.status, "rejected");
    assert_eq!(p.reason.as_deref(), Some("too risky"));
}

#[test]
fn request_notice_names_component_and_id() {
    let req = ApprovalRequest {
        id: "appr-test123".into(),
        component: "gardian".into(),
        category: "code".into(),
        description: "test".into(),
        params: serde_json::Value::Null,
    };
    assert_eq!(
        request_notice_for(&req),
        "⏳ **[gardian/code]** test\n   ID: `appr-test123`\n   Reply: `/approve appr-test123` or `/reject appr-test123 <reason>`"
    );
}

#[test]
fn blank_id_is_not_acted_on() {
    assert_eq!(resolution_to_act_on_exec("/approve   "), None);
    assert_eq!(resolution_to_act_on_exec("  /approve x1  "), Some(("x1".to_string(), None)));
}
