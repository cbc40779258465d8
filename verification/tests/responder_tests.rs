use charradissa::responder::{
    cap_tool_result, farga_get_result, round_outcome, should_respond, ContentBlock,
    HttpReply, Responder, RoundOutcome, ToolCall, ToolInput, MAX_TOOL_RESULT_BYTES,
};
use charradissa::types::{ChatEvent, ChatEventKind, RoomId, UserId};

fn ev(sender: &str, body: &str) -> ChatEvent {
    ChatEvent {
        event_id: "$x".into(),
        room_id: RoomId::new("!r:occitane.guilhem"),
        sender: UserId::new(sender),
        content: body.into(),
        timestamp: 0,
        kind: ChatEventKind::Message,
    }
}

fn responder() -> Responder {
    Responder::new(
        "k".into(),
        "agent-model".into(),
        "occitane.guilhem".into(),
        "http://farga:7500/".into(),
        "http://dispatcher:9090/mcp".into(),
        "http://amassada:7700".into(),
    )
}

fn input(pairs: &[(&str, &str)]) -> ToolInput {
    ToolInput { fields: pairs.iter().map(|(k, v)| (k.to_string(), v.to_string())).collect() }
}

fn done_text(c: ToolCall) -> String {
    match c {
        ToolCall::Done { text } => text,
        other => panic!("expected a finished call, got {:?}", other),
    }
}

#[test]
fn prompt_includes_history_and_latest() {
    let r = responder();
    let hist = vec![ev("@p:occitane.guilhem", "hello"), ev("@guilhem:occitane.guilhem", "hi")];
    let latest = ev("@p:occitane.guilhem", "what is farga?");
    let p = r.build_user_prompt(&hist, &latest);
    assert!(p.contains("hello") && p.contains("what is farga?"));
    assert!(p.contains("@p:occitane.guilhem"));
}

#[test]
fn prompt_has_exact_layout() {
    let r = responder();
    let hist = vec![ev("@a:s", "one")];
    let latest = ev("@b:s", "two");
    assert_eq!(
        r.build_user_prompt(&hist, &latest),
        "Recent conversation (oldest first):\n@a:s: one\n\nLatest message from @b:s:\ntwo\n\nReply as Guilhem."
    );
}

#[test]
fn ignores_self_and_nonmessages() {
    let me = "@guilhem:occitane.guilhem";
    assert!(!should_respond(&ev(me, "my own message"), me));
    assert!(should_respond(&ev("@p:occitane.guilhem", "hi"), me));
    let mut join = ev("@p:occitane.guilhem", "");
    join.kind = ChatEventKind::MemberJoin;
    assert!(!should_respond(&join, me));
}

#[test]
fn org_tool_set_has_farga_plus_dispatcher_plus_amassada() {
    let r = responder();
    let names: Vec<String> = r.tools().iter().map(|t| t.name.to_string()).collect();
    assert_eq!(
        names,
        vec![
            "farga_recent_signals",
            "farga_project_context",
            "farga_org_context",
            "farga_post_chronicle",
            "dispatcher_list_agent_specs",
            "dispatcher_get_agent_result",
            "amassada_state",
            "dispatcher_invoke_agent",
            "amassada_start_session",
        ]
    );
}

#[test]
fn component_tool_set_has_only_farga_tools() {
    let r = Responder::with_config(
        "k".into(),
        "agent-model".into(),
        "occitane.guilhem".into(),
        "http://farga:7500/".into(),
        "http://dispatcher:9090/mcp".into(),
        "http://amassada:7700".into(),
        "You are the amassada agent.".into(),
        false,
    );
    let names: Vec<String> = r.tools().iter().map(|t| t.name.to_string()).collect();
    assert_eq!(
        names,
        vec!["farga_recent_signals", "farga_project_context", "farga_org_context", "farga_post_chronicle"]
    );
}

#[test]
fn post_chronicle_rejects_empty_content() {
    let out = done_text(responder().plan_tool_call("farga_post_chronicle", &input(&[("content", "   ")])));
    assert!(out.starts_with("ERROR:") && out.contains("non-empty"));
}

#[test]
fn unknown_tool_returns_error_not_panic() {
    let out = done_text(responder().plan_tool_call("not_a_tool", &input(&[])));
    assert!(out.starts_with("ERROR: unknown tool"));
    assert_eq!(out, "ERROR: unknown tool 'not_a_tool'");
}

#[test]
fn farga_url_trailing_slash_trimmed() {
    let r = responder();
    assert!(!r.farga_url().ends_with('/'));
    assert_eq!(r.farga_url(), "http://farga:7500");
}

#[test]
fn dispatcher_get_agent_result_missing_job_id_returns_error() {
    let out = done_text(
        responder().plan_tool_call("dispatcher_get_agent_result", &input(&[("session_id", "s1")])),
    );
    assert!(out.starts_with("ERROR:") && out.contains("job_id"));
}

#[test]
fn farga_tools_build_urls_with_default_project() {
    let r = responder();
    match r.plan_tool_call("farga_recent_signals", &input(&[])) {
        ToolCall::FargaGet { url } => assert_eq!(url, "http://farga:7500/signals/recent?project=occitan"),
        other => panic!("unexpected {:?}", other),
    }
    match r.plan_tool_call("farga_project_context", &input(&[("project", "farga")])) {
        ToolCall::FargaGet { url } => assert_eq!(url, "http://farga:7500/context/project/farga"),
        other => panic!("unexpected {:?}", other),
    }
    match r.plan_tool_call("farga_post_chronicle", &input(&[("content", "done")])) {
        ToolCall::PostChronicle { url, project, content } => {
            assert_eq!(url, "http://farga:7500/signals");
            assert_eq!(project, "occitan");
            assert_eq!(content, "done");
        },
        other => panic!("unexpected {:?}", other),
    }
}

#[test]
fn invoke_agent_passes_context_only_when_given() {
    let r = responder();
    let base = [("domain", "d"), ("facet", "f"), ("task", "t"), ("session_id", "s")];
    match r.plan_tool_call("dispatcher_invoke_agent", &input(&base)) {
        ToolCall::Dispatcher { tool, arguments } => {
            assert_eq!(tool, "invoke_agent");
            assert_eq!(arguments.len(), 4);
        },
        other => panic!("unexpected {:?}", other),
    }
    let mut with_ctx = base.to_vec();
    with_ctx.push(("context", "c"));
    match r.plan_tool_call("dispatcher_invoke_agent", &input(&with_ctx)) {
        ToolCall::Dispatcher { arguments, .. } => {
            assert_eq!(arguments.last().unwrap(), &("context".to_string(), "c".to_string()))
        },
        other => panic!("unexpected {:?}", other),
    }
    let out = done_text(r.plan_tool_call("dispatcher_invoke_agent", &input(&[("domain", "d")])));
    assert_eq!(out, "ERROR: dispatcher_invoke_agent requires 'facet'");
}

#[test]
fn amassada_start_defaults_canvas() {
    match responder().plan_tool_call("amassada_start_session", &input(&[("goal", "g")])) {
        ToolCall::AmassadaStart { url, goal, canvas_id } => {
            assert_eq!(url, "http://amassada:7700/sessions");
            assert_eq!(goal, "g");
            assert_eq!(canvas_id, "design-session");
        },
        other => panic!("unexpected {:?}", other),
    }
}

#[test]
fn farga_errors_name_url_and_status() {
    let reply = Ok(HttpReply {
        success: false,
        status_code: 404,
        status: "404 Not Found".into(),
        body: "nope".into(),
    });
    assert_eq!(
        farga_get_result("http://f/x", &reply),
        "ERROR: Farga returned HTTP 404 Not Found for http://f/x: nope"
    );
    assert_eq!(
        farga_get_result("http://f/x", &Err("refused".into())),
        "ERROR: could not reach Farga at http://f/x: refused"
    );
}

#[test]
fn long_tool_results_are_capped() {
    let short = "abc".to_string();
    assert_eq!(cap_tool_result(short), "abc");
    let long = "x".repeat(MAX_TOOL_RESULT_BYTES + 10);
    let capped = cap_tool_result(long);
    assert!(capped.starts_with(&"x".repeat(MAX_TOOL_RESULT_BYTES)));
    assert!(capped.ends_with("\n…(truncated)"));
    assert_eq!(capped.len(), MAX_TOOL_RESULT_BYTES + "\n…(truncated)".len());
}

#[test]
fn long_tool_results_are_cut_on_a_character_boundary() {
    // A two-byte character straddles the byte limit: the cut falls before it.
    let long = format!("{}é{}", "x".repeat(MAX_TOOL_RESULT_BYTES - 1), "y".repeat(20));
    let capped = cap_tool_result(long);
    assert_eq!(capped, format!("{}\n…(truncated)", "x".repeat(MAX_TOOL_RESULT_BYTES - 1)));
    // Exactly at the limit: nothing is cut.
    let exact = "z".repeat(MAX_TOOL_RESULT_BYTES);
    assert_eq!(cap_tool_result(exact.clone()), exact);
}

#[test]
fn round_outcome_reads_answers_and_tool_uses() {
    let text = |t: &str| ContentBlock {
        block_type: "text".into(),
        text: Some(t.into()),
        name: None,
        id: None,
    };
    let tool = ContentBlock {
        block_type: "tool_use".into(),
        text: None,
        name: Some("amassada_state".into()),
        id: Some("tu_1".into()),
    };
    match round_outcome("end_turn", &vec![text("hello"), text(" world")]) {
        RoundOutcome::Answer(t) => assert_eq!(t, "hello world"),
        other => panic!("unexpected {:?}", other),
    }
    match round_outcome("tool_use", &vec![text("thinking"), tool]) {
        RoundOutcome::UseTools(uses) => {
            assert_eq!(uses.len(), 1);
            assert_eq!(uses[0].block, 1);
            assert_eq!(uses[0].id, "tu_1");
            assert_eq!(uses[0].name, "amassada_state");
        },
        other => panic!("unexpected {:?}", other),
    }
}
