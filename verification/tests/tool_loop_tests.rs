use charradissa::tool_loop::{parse_slash_command, requires_approval, SlashCommand, DEFAULT_MISSION_BUDGET};

#[test]
fn parses_approve_command() {
    let cmd = parse_slash_command("/approve abc-123");
    assert_eq!(cmd, Some(SlashCommand::Approve { id: "abc-123".into() }));
}

#[test]
fn parses_reject_command() {
    let cmd = parse_slash_command("/reject abc-123 too risky");
    assert_eq!(cmd, Some(SlashCommand::Reject { id: "abc-123".into(), reason: "too risky".into() }));
}

#[test]
fn parses_session_command() {
    let cmd = parse_slash_command("/session debate \"should we use microservices?\"");
    assert!(matches!(cmd, Some(SlashCommand::Session { .. })));
}

#[test]
fn parses_mission_with_budget() {
    let cmd = parse_slash_command("/mission 50000 design our auth system");
    assert!(matches!(cmd, Some(SlashCommand::Mission { budget_tokens: 50000, .. })));
    if let Some(SlashCommand::Mission { goal, budget_tokens }) = cmd {
        assert_eq!(budget_tokens, 50000);
        assert_eq!(goal, "design our auth system");
    }
}

#[test]
fn parses_mission_without_budget_uses_default() {
    let cmd = parse_slash_command("/mission improve the onboarding flow");
    assert!(matches!(cmd, Some(SlashCommand::Mission { .. })));
    if let Some(SlashCommand::Mission { budget_tokens, goal }) = cmd {
        assert_eq!(budget_tokens, 100_000);
        assert_eq!(budget_tokens, DEFAULT_MISSION_BUDGET);
        assert_eq!(goal, "improve the onboarding flow");
    }
}

#[test]
fn returns_none_for_unknown() {
    assert!(parse_slash_command("/unknown foo").is_none());
    assert!(parse_slash_command("plain text").is_none());
}

#[test]
fn session_goal_loses_its_quotes() {
    assert_eq!(
        parse_slash_command("/session debate \"should we use microservices?\""),
        Some(SlashCommand::Session { canvas_id: "debate".into(), goal: "should we use microservices?".into() })
    );
}

#[test]
fn risky_tools_need_approval() {
    let (needs, category) = requires_approval("delete_room");
    let (plain, none) = requires_approval("read_file");
    assert!(!plain);
    assert!(none.is_none());
    assert_eq!(needs, category.is_some());
}
