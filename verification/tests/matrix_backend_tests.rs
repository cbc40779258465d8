use charradissa::matrix::backend::{
    agent_localpart_for_component, component_prompt, component_responder, components_url, dm_record_after, dm_partners, dm_summary, existing_dm,
    fondament_resolve_url, parse_messages_chunk, provisioning_summary, RoomProvisioningParams,
};
use charradissa::matrix::client::ChunkEvent;
use charradissa::responder::HttpReply;
use charradissa::types::{ChatEventKind, RoomId};

fn chunk_event(id: &str, body: &str) -> ChunkEvent {
    ChunkEvent {
        event_type: Some("m.room.message".into()),
        event_id: Some(id.into()),
        sender: Some("@p:occitane.guilhem".into()),
        body: Some(body.into()),
    }
}

#[test]
fn room_provisioning_params_holds_all_fields() {
    let p = RoomProvisioningParams {
        farga_url: "http://farga:7500".into(),
        fondament_url: "http://fondament:7800".into(),
        anthropic_api_key: "key".into(),
        dispatcher_url: "http://dispatcher:9090/mcp".into(),
        amassada_url: "http://amassada:7700".into(),
    };
    assert_eq!(p.farga_url, "http://farga:7500");
    assert_eq!(p.fondament_url, "http://fondament:7800");
}

#[test]
fn parses_messages_response_oldest_first() {
    let chunk = vec![chunk_event("$b", "second"), chunk_event("$a", "first")];
    let evs = parse_messages_chunk(&chunk, &RoomId::new("!r:occitane.guilhem"), 0);
    assert_eq!(evs.len(), 2);
    assert_eq!(evs[0].content, "first");
    assert_eq!(evs[1].content, "second");
    assert_eq!(evs[0].room_id.as_str(), "!r:occitane.guilhem");
    assert!(matches!(evs[0].kind, ChatEventKind::Message));
}

#[test]
fn non_messages_are_dropped_from_history() {
    let mut member = chunk_event("$m", "");
    member.event_type = Some("m.room.member".into());
    let mut anonymous = chunk_event("$x", "who?");
    anonymous.sender = None;
    let evs = parse_messages_chunk(&vec![member, anonymous, chunk_event("$a", "kept")], &RoomId::new("!r:s"), 0);
    assert_eq!(evs.len(), 1);
    assert_eq!(evs[0].content, "kept");
}

#[test]
fn charradissa_component_maps_to_agent_localpart() {
    assert_eq!(agent_localpart_for_component("charradissa"), "charradissa-agent");
    assert_eq!(agent_localpart_for_component("amassada"), "amassada");
    assert_eq!(agent_localpart_for_component("gardian"), "gardian");
}

#[test]
fn provisioning_urls() {
    assert_eq!(components_url("http://farga:7500", "test-project"), "http://farga:7500/context/components/test-project");
    assert_eq!(
        fondament_resolve_url("http://fondament:7800", "amassada"),
        "http://fondament:7800/resolve/fondament/amassada-agent"
    );
    assert_eq!(provisioning_summary(&vec!["!a:s".into(), "!b:s".into()]), "provisioned 2 component rooms: !a:s, !b:s");
}

#[test]
fn provision_dm_rooms_creates_for_all_seven_when_absent() {
    let partners = dm_partners("occitane.guilhem");
    assert_eq!(partners.len(), 7, "expected a DM for each of the 7 component agents");
    assert!(!partners.contains(&"@guilhem:occitane.guilhem".to_string()));
    assert!(partners.contains(&"@amassada:occitane.guilhem".to_string()));
    let none: Vec<(String, Option<String>)> = vec![];
    for p in &partners {
        assert_eq!(existing_dm(&none, p), None);
    }
}

#[test]
fn provision_dm_rooms_is_idempotent() {
    let direct: Vec<(String, Option<String>)> = dm_partners("occitane.guilhem")
        .into_iter()
        .map(|p| {
            let lp = p.trim_start_matches('@').split(':').next().unwrap().to_string();
            (p, Some(format!("!existing-{}:occitane.guilhem", lp)))
        })
        .collect();
    for p in dm_partners("occitane.guilhem") {
        assert!(existing_dm(&direct, &p).is_some());
    }
    assert_eq!(
        existing_dm(&direct, "@amassada:occitane.guilhem").as_deref(),
        Some("!existing-amassada:occitane.guilhem")
    );
    assert_eq!(
        dm_summary(&vec![("@farga:s".into(), "!r:s".into())]),
        "provisioned 1 DM rooms (Guilhem ↔ component agents): @farga:s → !r:s"
    );
}

#[test]
fn component_responders_answer_with_the_configured_model() {
    let p = RoomProvisioningParams {
        farga_url: "http://farga:7500/".into(),
        fondament_url: "http://fondament:7800".into(),
        anthropic_api_key: "key".into(),
        dispatcher_url: "http://dispatcher:9090/mcp".into(),
        amassada_url: "http://amassada:7700".into(),
    };
    let r = component_responder(&p, "occitane.guilhem", "agent-model", "You are farga.".into());
    assert_eq!(r.model(), "agent-model");
    assert_eq!(r.api_key(), "key");
    assert_eq!(r.farga_url(), "http://farga:7500");
    assert!(!r.is_org_agent());
}

#[test]
fn component_prompts_come_only_from_successful_non_empty_answers() {
    let reply = |success: bool, body: &str| -> Result<HttpReply, String> {
        Ok(HttpReply { success, status_code: if success { 200 } else { 404 }, status: String::new(), body: body.into() })
    };
    assert_eq!(component_prompt(&reply(true, "You are farga.")), Some("You are farga.".to_string()));
    assert_eq!(component_prompt(&reply(true, "")), None);
    assert_eq!(component_prompt(&reply(false, "not found")), None);
    assert_eq!(component_prompt(&Err("refused".into())), None);
}

#[test]
fn created_dm_rooms_are_recorded_and_written_back() {
    let direct = vec![("@farga:occitane.guilhem".to_string(), Some("!f:s".to_string()))];
    let (after, write_back) = dm_record_after(direct.clone(), &vec![]);
    assert_eq!(after, direct);
    assert!(!write_back);
    let created = vec![("@cor:occitane.guilhem".to_string(), "!c:s".to_string())];
    let (after, write_back) = dm_record_after(direct, &created);
    assert!(write_back);
    assert_eq!(existing_dm(&after, "@cor:occitane.guilhem"), Some("!c:s".to_string()));
    assert_eq!(existing_dm(&after, "@farga:occitane.guilhem"), Some("!f:s".to_string()));
}
