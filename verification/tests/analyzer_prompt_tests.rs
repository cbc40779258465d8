use charradissa::error::CharradissaError;
use charradissa::farcaster::analyzer::{CrossSpaceSnapshot, DigestEntry, ProjectSnapshot};
use charradissa::farcaster::claude_analyzer::{
    bearer, connection_from, digest_prompt, reactive_prompt, read_reply, route_for,
    ClaudeFarcasterAnalyzer, LlmRoute,
};
use charradissa::farcaster::concurrence::Urgency;
use charradissa::farcaster::cross_domain::{CrossDomainEntry, CrossDomainSnapshot, DomainSnapshot};
use charradissa::farcaster::cross_domain_analyzer::{
    cross_connection_from, cross_digest_prompt, cross_domain_prompt, ClaudeCrossDomainAnalyzer,
};
use charradissa::farcaster::milestone::MilestoneEvent;
use charradissa::farcaster::observation::DomainDigestEvent;
use charradissa::types::ProjectId;

#[test]
fn grok_models_go_to_xai_with_its_key() {
    match route_for("grok-3", &Some("xk".to_string())) {
        Ok(LlmRoute::Xai { api_key }) => assert_eq!(api_key, "xk"),
        other => panic!("unexpected {:?}", other),
    }
    match route_for("xai-beta", &None) {
        Err(CharradissaError::Dispatch(m)) => assert_eq!(m, "XAI_API_KEY not set for grok model"),
        other => panic!("unexpected {:?}", other),
    }
    assert!(matches!(route_for("reactive-model", &None), Ok(LlmRoute::Anthropic)));
    let a = ClaudeFarcasterAnalyzer::new("ak".into(), None);
    assert!(matches!(a.route("digest-model"), Ok(LlmRoute::Anthropic)));
    assert_eq!(bearer("k"), "Bearer k");
}

#[test]
fn replies_are_read_per_provider() {
    let xai = LlmRoute::Xai { api_key: "k".into() };
    assert_eq!(read_reply(&xai, None, Some("12345678".into()), None).unwrap(), ("12345678".to_string(), 2));
    assert_eq!(read_reply(&xai, None, None, None).unwrap(), (String::new(), 0));
    let anth = LlmRoute::Anthropic;
    assert_eq!(read_reply(&anth, None, Some("hi".into()), Some(42)).unwrap(), ("hi".to_string(), 42));
    assert_eq!(read_reply(&anth, None, None, None).unwrap(), (String::new(), 0));
    match read_reply(&anth, Some("{\"type\":\"overloaded\"}".into()), Some("x".into()), Some(1)) {
        Err(CharradissaError::Dispatch(m)) => assert_eq!(m, "{\"type\":\"overloaded\"}"),
        other => panic!("unexpected {:?}", other),
    }
}

#[test]
fn reactive_prompt_lists_each_project() {
    let event = MilestoneEvent::MissionCompleted {
        mission_id: "m".into(),
        project_id: ProjectId::new("alpha"),
        goal: "ship".into(),
        completed_sub_objectives: vec![],
        verdict: "submit".into(),
    };
    let snapshot = CrossSpaceSnapshot {
        projects: vec![
            ProjectSnapshot {
                project_id: ProjectId::new("alpha"),
                mission_goal: None,
                open_sub_objectives: vec!["a".into(), "b".into()],
                recent_events: vec!["e1".into(), "e2".into()],
            },
            ProjectSnapshot {
                project_id: ProjectId::new("beta"),
                mission_goal: Some("g".into()),
                open_sub_objectives: vec![],
                recent_events: vec![],
            },
        ],
    };
    assert_eq!(
        reactive_prompt(&event, &snapshot),
        "Triggering event: mission 'ship' completed (submit)\n\nProject snapshots:\nProject: alpha\nGoal: (unknown)\nOpen: a, b\nRecent events:\ne1\n  e2\n\nProject: beta\nGoal: g\nOpen: \nRecent events:\n"
    );
}

#[test]
fn digest_prompt_lists_each_entry() {
    let entries = vec![
        DigestEntry {
            project_id: ProjectId::new("a"),
            connection_summary: "shared".into(),
            involved_projects: vec![ProjectId::new("a"), ProjectId::new("b")],
            concurrence: vec![],
            urgency: Urgency::High,
            whispered_at: Some(1),
            first_observed_at: 0,
        },
        DigestEntry {
            project_id: ProjectId::new("c"),
            connection_summary: "alone".into(),
            involved_projects: vec![],
            concurrence: vec![],
            urgency: Urgency::Low,
            whispered_at: None,
            first_observed_at: 0,
        },
    ];
    assert_eq!(
        digest_prompt(&entries),
        "Connections observed:\n- [a → b] shared (urgency: High, whispered: true)\n- [? → ?] alone (urgency: Low, whispered: false)"
    );
}

#[test]
fn connections_read_their_urgency() {
    let c = connection_from("a", "b", "conflict".into(), "s".into(), "MEDIUM");
    assert_eq!(c.from_project.as_str(), "a");
    assert_eq!(c.to_project.as_str(), "b");
    assert_eq!(c.urgency, Urgency::Medium);
    let d = cross_connection_from("eng".into(), "data".into(), "t".into(), "s".into(), "nope");
    assert_eq!(d.urgency, Urgency::Low);
    assert_eq!(ClaudeCrossDomainAnalyzer::new("k".into()).api_key, "k");
}

#[test]
fn cross_domain_prompts() {
    let event = DomainDigestEvent {
        domain: "eng".into(),
        title: "T".into(),
        narrative: "N".into(),
        lessons: vec!["l1".into(), "l2".into()],
        open_questions: vec![],
        involved_projects: vec![],
        concurrence: vec![],
        period_start: 0,
        period_end: 0,
        farga_node_id: None,
    };
    let snapshot = CrossDomainSnapshot {
        domains: vec![DomainSnapshot { domain: "eng".into(), recent_digests: vec!["d1".into()] }],
    };
    assert_eq!(
        cross_domain_prompt(&event, &snapshot),
        "Triggering domain digest: domain digest [eng]: T\nNarrative: N\nLessons: l1; l2\n\nAll domain snapshots:\nDomain: eng\nRecent digests:\n  d1"
    );
    let entries = vec![CrossDomainEntry {
        from_domain: "eng".into(),
        connection_summary: "x".into(),
        involved_domains: vec!["eng".into()],
        urgency: Urgency::Medium,
        first_observed_at: 0,
    }];
    assert_eq!(
        cross_digest_prompt(&entries),
        "Cross-domain connections observed:\n- [eng → ?] x (urgency: Medium)"
    );
}
