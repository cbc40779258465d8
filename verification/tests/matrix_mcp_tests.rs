use charradissa::dm_registry::DmRegistry;
use charradissa::matrix::mcp::{
    action_result, approval_request_result, read_result, rpc_action, scan_result, MatrixMcp,
    McpArgs, McpCall, RpcAction, MCP_PROTOCOL_VERSION, MCP_SERVER_NAME, METHOD_NOT_FOUND,
};

fn mcp() -> MatrixMcp {
    MatrixMcp::new(
        DmRegistry::from_map(vec![("farga".to_string(), "!farga-dm:occitane.guilhem".to_string())]),
        "!approvals:occitane.guilhem".to_string(),
        "occitane.guilhem".to_string(),
        "@charradissa:occitane.guilhem".to_string(),
    )
}

fn args(pairs: &[(&str, &str)]) -> McpArgs {
    McpArgs { strings: pairs.iter().map(|(k, v)| (k.to_string(), v.to_string())).collect(), limit: None }
}

#[test]
fn tools_list_advertises_seven_tools() {
    let tools = MatrixMcp::tool_definitions();
    assert_eq!(tools.len(), 7);
    let names: Vec<&str> = tools.iter().map(|t| t.name).collect();
    assert!(names.contains(&"matrix_send"));
    assert!(names.contains(&"matrix_request_approval"));
}

#[test]
fn initialize_returns_server_info() {
    assert!(matches!(rpc_action("initialize", true), RpcAction::Initialize));
    assert_eq!(MCP_PROTOCOL_VERSION, "2024-11-05");
    assert_eq!(MCP_SERVER_NAME, "charradissa-matrix-mcp");
}

#[test]
fn notification_without_id_returns_null() {
    assert!(matches!(rpc_action("tools/call", false), RpcAction::Notification));
}

#[test]
fn unknown_method_returns_jsonrpc_error() {
    match rpc_action("bogus", true) {
        RpcAction::NotFound { message } => assert_eq!(message, "method not found: bogus"),
        other => panic!("unexpected {:?}", other),
    }
    assert_eq!(METHOD_NOT_FOUND, -32601);
}

#[test]
fn matrix_send_puts_message_and_succeeds() {
    let call = mcp().plan_call("matrix_send", &args(&[("room_id", "!r:s"), ("content", "hi")]));
    match &call {
        McpCall::Send { room_id, content } => {
            assert_eq!(room_id, "!r:s");
            assert_eq!(content, "hi");
        },
        other => panic!("unexpected {:?}", other),
    }
    assert_eq!(action_result(&call, &Ok(())), Ok("Sent message to !r:s.".to_string()));
}

#[test]
fn matrix_send_missing_content_is_error() {
    match mcp().plan_call("matrix_send", &args(&[("room_id", "!r:s")])) {
        McpCall::Finish(Err(e)) => assert_eq!(e, "missing required string argument: content"),
        other => panic!("unexpected {:?}", other),
    }
}

#[test]
fn matrix_invite_forbidden_fails_gracefully() {
    let call = mcp().plan_call("matrix_invite", &args(&[("room_id", "!r:s"), ("user_id", "@u:s")]));
    assert_eq!(action_result(&call, &Ok(())), Ok("Invited @u:s to !r:s.".to_string()));
    assert_eq!(action_result(&call, &Err("403 Forbidden".into())), Err("403 Forbidden".to_string()));
}

#[test]
fn matrix_kick_without_reason_uses_default() {
    match mcp().plan_call("matrix_kick", &args(&[("room_id", "!r:s"), ("user_id", "@u:s")])) {
        McpCall::Kick { reason, .. } => assert_eq!(reason, "removed by agent"),
        other => panic!("unexpected {:?}", other),
    }
    match mcp().plan_call("matrix_kick", &args(&[("room_id", "!r:s"), ("user_id", "@u:s"), ("reason", "spam")])) {
        McpCall::Kick { reason, .. } => assert_eq!(reason, "spam"),
        other => panic!("unexpected {:?}", other),
    }
}

#[test]
fn matrix_get_dm_resolves_room_id() {
    match mcp().plan_call("matrix_get_dm", &args(&[("agent", "farga")])) {
        McpCall::Finish(Ok(room)) => assert_eq!(room, "!farga-dm:occitane.guilhem"),
        other => panic!("unexpected {:?}", other),
    }
}

#[test]
fn matrix_get_dm_resolves_by_mxid() {
    match mcp().plan_call("matrix_get_dm", &args(&[("agent", "@farga:occitane.guilhem")])) {
        McpCall::Finish(Ok(room)) => assert_eq!(room, "!farga-dm:occitane.guilhem"),
        other => panic!("unexpected {:?}", other),
    }
}

#[test]
fn matrix_get_dm_unknown_agent_is_error() {
    match mcp().plan_call("matrix_get_dm", &args(&[("agent", "ghost")])) {
        McpCall::ScanDm { mxid } => {
            assert_eq!(mxid, "@ghost:occitane.guilhem");
            assert!(scan_result(&mxid, &Ok(None)).unwrap_err().starts_with("no DM room found with '@ghost:occitane.guilhem'"));
            assert_eq!(scan_result(&mxid, &Ok(Some("!dm:s".into()))), Ok("!dm:s".to_string()));
        },
        other => panic!("unexpected {:?}", other),
    }
}

#[test]
fn matrix_leave_succeeds() {
    let call = mcp().plan_call("matrix_leave", &args(&[("room_id", "!r:s")]));
    assert_eq!(action_result(&call, &Ok(())), Ok("Left room !r:s.".to_string()));
}

#[test]
fn matrix_read_returns_chronological_messages() {
    let mut a = args(&[("room_id", "!r:s")]);
    a.limit = Some(500);
    match mcp().plan_call("matrix_read", &a) {
        McpCall::Read { limit, .. } => assert_eq!(limit, 20),
        other => panic!("unexpected {:?}", other),
    }
    let msgs = vec![("@a:s".to_string(), "one".to_string()), ("@b:s".to_string(), "two".to_string())];
    assert_eq!(read_result(&Ok(msgs)), Ok("@a: one\n@b: two".to_string()));
}

#[test]
fn matrix_read_empty_room_returns_no_messages_string() {
    assert_eq!(read_result(&Ok(vec![])), Ok("No messages found.".to_string()));
}

#[test]
fn unknown_tool_is_error() {
    match mcp().plan_call("matrix_fly", &args(&[])) {
        McpCall::Finish(Err(e)) => assert_eq!(e, "unknown tool: matrix_fly"),
        other => panic!("unexpected {:?}", other),
    }
}

#[test]
fn approval_requests_default_category_and_source() {
    match mcp().plan_call("matrix_request_approval", &args(&[("component", "gardian"), ("description", "merge")])) {
        McpCall::RequestApproval { component, category, description, source_room_id } => {
            assert_eq!((component.as_str(), category.as_str(), description.as_str()), ("gardian", "code", "merge"));
            assert_eq!(source_room_id, "@charradissa:occitane.guilhem");
        },
        other => panic!("unexpected {:?}", other),
    }
    let r = approval_request_result(&Ok("id-1".into()), &Ok(()));
    assert!(r.unwrap().starts_with("approval_id: id-1 — posted to approval room."));
    assert_eq!(approval_request_result(&Err("down".into()), &Ok(())), Err("down".to_string()));
}
