use charradissa::config::ProjectAgentConfig;
use charradissa::matrix::appservice::{
    diagram_name, event_action, is_appservice_sender, is_migrated_room, parse_matrix_event,
    project_endpoint_url, reply_message, resolve_token, route_for, sender_from_agent_url,
    token_ok, AppserviceState, EventAction, MatrixEventFields, ReplyPath, Route,
    MIGRATED_AGENT_ROOM_IDS,
};
use charradissa::routing::project_session_id;
use charradissa::types::ChatEventKind;

fn state() -> AppserviceState {
    AppserviceState {
        hs_token: "hs".into(),
        default_agent_url: "http://guilhem:8080".into(),
        agent_routes: vec![("!farga-room:s".into(), "http://farga-agent.agents.svc:8080".into())],
        self_user_id: "@charradissa-relay:occitane.guilhem".into(),
        component_agents: vec![("!amassada:occitane.guilhem".into(), "amassada".into())],
        project_routes: vec![(
            "!proj-a:occitane.guilhem".into(),
            ProjectAgentConfig {
                agent_type: "amassada_backed".into(),
                rooms: vec!["!proj-a:occitane.guilhem".into()],
                project_id: "alpha".into(),
                endpoint: "http://amassada:7700/sessions/{session_id}/message".into(),
            },
        )],
        kroki_url: None,
    }
}

fn message(room: &str, sender: &str, body: &str) -> MatrixEventFields {
    MatrixEventFields {
        event_type: Some("m.room.message".into()),
        membership: None,
        state_key: None,
        event_id: Some("$e".into()),
        room_id: Some(room.into()),
        sender: Some(sender.into()),
        body: Some(body.into()),
    }
}

#[test]
fn rejects_wrong_hs_token() {
    assert!(token_ok(Some("good"), "good"));
    assert!(!token_ok(Some("bad"), "good"));
    assert!(!token_ok(None, "good"));
}

#[test]
fn migrated_room_ids_include_all_nine_agents() {
    assert_eq!(MIGRATED_AGENT_ROOM_IDS.len(), 9);
    assert!(MIGRATED_AGENT_ROOM_IDS.contains(&"!iNQRqUAMckCUQrSFHk:occitane.guilhem"));
    assert!(MIGRATED_AGENT_ROOM_IDS.contains(&"!qZGQFrjAcKjPinhQnp:occitane.guilhem"));
    assert!(is_migrated_room("!qZGQFrjAcKjPinhQnp:occitane.guilhem"));
    assert!(!is_migrated_room("!other:occitane.guilhem"));
}

#[test]
fn endpoint_room_id_substitution() {
    let url = project_endpoint_url("http://amassada:7700/sessions/{room_id}/message", "!proj-a:occitane.guilhem");
    assert_eq!(url, "http://amassada:7700/sessions/!proj-a:occitane.guilhem/message");
    assert!(!url.contains("{room_id}"));
}

#[test]
fn endpoint_session_id_substitution() {
    let room = "!proj-a:occitane.guilhem";
    let url = project_endpoint_url("http://a/sessions/{session_id}/message", room);
    assert_eq!(url, format!("http://a/sessions/{}/message", project_session_id(room)));
}

#[test]
fn component_agents_map_keyed_by_room_id() {
    let st = state();
    match route_for(&st, "!amassada:occitane.guilhem") {
        Route::Component { localpart } => assert_eq!(localpart, "amassada"),
        other => panic!("unexpected {:?}", other),
    }
    assert!(!matches!(route_for(&st, "!other:occitane.guilhem"), Route::Component { .. }));
}

#[test]
fn project_rooms_route_to_their_project_agent() {
    let st = state();
    match route_for(&st, "!proj-a:occitane.guilhem") {
        Route::Project { url, project_id } => {
            assert_eq!(project_id, "alpha");
            assert!(url.contains(&project_session_id("!proj-a:occitane.guilhem")));
        },
        other => panic!("unexpected {:?}", other),
    }
    match route_for(&st, "!elsewhere:s") {
        Route::Agent { url, sender } => {
            assert_eq!(url, "http://guilhem:8080");
            assert_eq!(sender.as_deref(), Some("guilhem"));
        },
        other => panic!("unexpected {:?}", other),
    }
    match route_for(&st, "!farga-room:s") {
        Route::Agent { url, sender } => {
            assert_eq!(url, "http://farga-agent.agents.svc:8080");
            assert_eq!(sender.as_deref(), Some("farga"));
        },
        other => panic!("unexpected {:?}", other),
    }
}

#[test]
fn agent_urls_name_their_sender() {
    assert_eq!(sender_from_agent_url("http://guilhem.agents.svc.cluster.local:8080").as_deref(), Some("guilhem"));
    assert_eq!(sender_from_agent_url("not a url"), None);
}

#[test]
fn echoes_of_virtual_users_are_recognized() {
    let me = "@charradissa-relay:occitane.guilhem";
    assert!(is_appservice_sender("@farga:occitane.guilhem", me));
    assert!(!is_appservice_sender("@farga:elsewhere.org", me));
    assert!(!is_appservice_sender("@someone:occitane.guilhem", me));
}

#[test]
fn tokens_come_from_header_or_query() {
    assert_eq!(resolve_token(Some("Bearer abc"), None).as_deref(), Some("abc"));
    assert_eq!(resolve_token(None, Some("q")).as_deref(), Some("q"));
    assert_eq!(resolve_token(None, None), None);
}

#[test]
fn messages_parse_and_commands_are_recognized() {
    let ev = parse_matrix_event(&message("!r:s", "@u:s", "hello"), 5).unwrap();
    assert_eq!(ev.content, "hello");
    assert_eq!(ev.timestamp, 5);
    assert!(matches!(ev.kind, ChatEventKind::Message));
    let cmd = parse_matrix_event(&message("!r:s", "@u:s", "/approve x"), 5).unwrap();
    match cmd.kind {
        ChatEventKind::SlashCommand { command, args } => {
            assert_eq!(command, "approve");
            assert_eq!(args, "x");
        },
        other => panic!("unexpected {:?}", other),
    }
}

#[test]
fn invites_to_self_are_joined_and_echoes_ignored() {
    let st = state();
    let invite = MatrixEventFields {
        event_type: Some("m.room.member".into()),
        membership: Some("invite".into()),
        state_key: Some("@charradissa-relay:occitane.guilhem".into()),
        event_id: Some("$i".into()),
        room_id: Some("!new:s".into()),
        sender: Some("@u:s".into()),
        body: None,
    };
    match event_action(&st, &invite, 0) {
        EventAction::AutoJoin { room_id } => assert_eq!(room_id.as_str(), "!new:s"),
        other => panic!("unexpected {:?}", other),
    }
    let echo = message("!r:s", "@farga:occitane.guilhem", "hi");
    assert!(matches!(event_action(&st, &echo, 0), EventAction::Ignore));
    let migrated = message("!qZGQFrjAcKjPinhQnp:occitane.guilhem", "@human:s", "hi");
    assert!(matches!(event_action(&st, &migrated, 0), EventAction::Ignore));
    let relayed = message("!proj-a:occitane.guilhem", "@human:s", "hi");
    assert!(matches!(event_action(&st, &relayed, 0), EventAction::Relay { .. }));
}

#[test]
fn replies_are_cleaned_and_failures_explained() {
    assert_eq!(reply_message(ReplyPath::DefaultAgent, &Ok("  ".into())), None);
    assert_eq!(reply_message(ReplyPath::Component, &Ok("[MAIN] hi".into())), Some("hi".to_string()));
    assert_eq!(reply_message(ReplyPath::Project, &Ok("[LEAVE]".into())), None);
    assert!(reply_message(ReplyPath::DefaultAgent, &Err("down".into())).unwrap().contains("Guilhem is unreachable"));
    assert_eq!(diagram_name(1, 0), "diagram.svg");
    assert_eq!(diagram_name(3, 1), "diagram-2.svg");
}
