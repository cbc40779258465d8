use charradissa::farcaster::analyzer::{CrossSpaceConnection, DigestEntry, DigestSynthesis};
use charradissa::farcaster::agent::{
    AgentTick, FarcasterAgent, ReactiveStep, FARCASTER_DIGEST_BUDGET, FARCASTER_REACTIVE_BUDGET,
    FARCASTER_ROOM,
};
use charradissa::farcaster::concurrence::{AgentConcurrence, ConcurrenceType, Urgency};
use charradissa::farcaster::cross_domain::{
    CrossDomainConnection, CrossDomainEntry, CrossDomainFarcaster, DigestStep, TickStep,
    CROSS_DOMAIN_ROOM,
};
use charradissa::farcaster::digest::{extract_json, format_digest, parse_urgency, DigestScope};
use charradissa::farcaster::domain_concierge::DomainRegistry;
use charradissa::farcaster::governance::{
    risk_levels, FargaLayer, GovernanceContribution, ImpactScope, ReversibilityLevel,
};
use charradissa::farcaster::milestone::MilestoneEvent;
use charradissa::farcaster::observation::{DomainDigestEvent, ObservationEvent};
use charradissa::types::{ProjectId, UserId};

fn artifact_event() -> MilestoneEvent {
    MilestoneEvent::ArtifactProduced {
        mission_id: "m1".into(),
        session_id: "s1".into(),
        project_id: ProjectId::new("alpha"),
        canvas_id: "c1".into(),
        artifact_summary: "auth schema finalized".into(),
        sub_objective_ids: vec!["obj-1".into()],
    }
}

fn entry(project: &str, summary: &str, involved: &[&str], urgency: Urgency) -> DigestEntry {
    DigestEntry {
        project_id: ProjectId::new(project),
        connection_summary: summary.into(),
        involved_projects: involved.iter().map(|p| ProjectId::new(p)).collect(),
        concurrence: vec![],
        urgency,
        whispered_at: None,
        first_observed_at: 1_000,
    }
}

fn synthesis(verdict: &str, title: Option<&str>, narrative: Option<&str>) -> DigestSynthesis {
    DigestSynthesis {
        connections: vec!["alpha and beta share auth approach".into()],
        lessons: vec!["centralize auth early".into()],
        open_questions: vec!["which library?".into()],
        farga_verdict: verdict.into(),
        farga_title: title.map(|t| t.to_string()),
        farga_narrative: narrative.map(|t| t.to_string()),
    }
}

fn agent(projects: &[&str], ids: &[(&str, &str)]) -> FarcasterAgent {
    FarcasterAgent::new(
        projects.iter().map(|p| ProjectId::new(p)).collect(),
        ids.iter().map(|(p, u)| (p.to_string(), UserId::new(u))).collect(),
        0,
    )
}

fn contribution() -> GovernanceContribution {
    GovernanceContribution {
        title: "test".into(),
        narrative: "test narrative".into(),
        lessons: vec![],
        open_questions: vec![],
        involved_projects: vec![ProjectId::new("proj-a")],
        concurrence: vec![],
        target_layer: FargaLayer::ProjectLevel,
        first_observed_at: 0,
        last_observed_at: 0,
        event_count: 1,
        reversibility: None,
        impact: None,
    }
}

fn domain_digest(domain: &str, title: &str) -> DomainDigestEvent {
    DomainDigestEvent {
        domain: domain.to_string(),
        title: title.to_string(),
        narrative: "test narrative".to_string(),
        lessons: vec!["lesson one".to_string()],
        open_questions: vec![],
        involved_projects: vec![ProjectId::new("proj-a")],
        concurrence: vec![],
        period_start: 0,
        period_end: 0,
        farga_node_id: None,
    }
}

#[test]
fn farcaster_agent_new_initializes_with_defaults() {
    let a = agent(&["alpha"], &[]);
    assert_eq!(a.projects.len(), 1);
    assert!(a.digest_buffer.is_empty());
    assert_eq!(a.daily_reactive_token_budget, FARCASTER_REACTIVE_BUDGET);
    assert_eq!(a.daily_digest_token_budget, FARCASTER_DIGEST_BUDGET);
    assert_eq!((a.reactive_tokens_used, a.digest_tokens_used), (0, 0));
    assert!(a.domain.is_none());
}

#[test]
fn milestone_project_id_returns_correct_project() {
    assert_eq!(artifact_event().project_id().as_str(), "alpha");
}

#[test]
fn milestone_summary_contains_canvas_and_summary() {
    let s = artifact_event().summary();
    assert!(s.contains("c1"), "expected canvas id in summary: {}", s);
    assert!(s.contains("auth schema"), "expected artifact summary: {}", s);
    assert_eq!(s, "produced artifact on canvas c1: auth schema finalized");
}

#[test]
fn replan_event_summary_contains_count() {
    let ev = MilestoneEvent::ReplanTriggered {
        mission_id: "m1".into(),
        project_id: ProjectId::new("beta"),
        sub_objective_id: "obj-2".into(),
        reason: "test failed".into(),
        replan_count: 3,
    };
    assert!(ev.summary().contains("3"));
    assert_eq!(ev.summary(), "replan #3 for obj-2: test failed");
}

#[test]
fn urgency_derives_eq_and_debug() {
    assert_eq!(Urgency::High, Urgency::High);
    assert_ne!(Urgency::Low, Urgency::High);
    assert_eq!(format!("{:?}", Urgency::Medium), "Medium");
}

#[test]
fn significance_of_milestones() {
    let failed = MilestoneEvent::EvaluationCompleted {
        mission_id: "m1".into(),
        project_id: ProjectId::new("alpha"),
        sub_objective_id: "obj-1".into(),
        satisfied: false,
        reason: "not done yet".into(),
    };
    assert!(!failed.is_significant());
    assert!(artifact_event().is_significant());
    let first_replan = MilestoneEvent::ReplanTriggered {
        mission_id: "m".into(),
        project_id: ProjectId::new("p"),
        sub_objective_id: "o".into(),
        reason: "r".into(),
        replan_count: 1,
    };
    assert!(!first_replan.is_significant());
}

#[test]
fn insignificant_events_skip_analyzer() {
    let mut a = agent(&["alpha", "beta"], &[]);
    let event = MilestoneEvent::EvaluationCompleted {
        mission_id: "m1".into(),
        project_id: ProjectId::new("alpha"),
        sub_objective_id: "obj-1".into(),
        satisfied: false,
        reason: "not done yet".into(),
    };
    assert!(matches!(a.record_milestone(event, 0), ReactiveStep::Skip));
    assert!(a.digest_buffer.is_empty(), "insignificant event should not populate digest_buffer");
}

#[test]
fn significant_event_triggers_analysis_and_dm() {
    let mut a = agent(&["alpha", "beta"], &[("beta", "@beta-agent:matrix.test")]);
    let event = MilestoneEvent::ArtifactProduced {
        mission_id: "m1".into(),
        session_id: "s1".into(),
        project_id: ProjectId::new("alpha"),
        canvas_id: "auth".into(),
        artifact_summary: "finalized auth schema".into(),
        sub_objective_ids: vec![],
    };
    match a.record_milestone(event, 0) {
        ReactiveStep::Analyze(snapshot) => {
            assert_eq!(snapshot.projects.len(), 2);
            assert_eq!(snapshot.projects[0].recent_events, vec!["produced artifact on canvas auth: finalized auth schema"]);
        },
        other => panic!("expected an analysis, got {:?}", other),
    }
    let dms = a.apply_connections(
        vec![CrossSpaceConnection {
            from_project: ProjectId::new("alpha"),
            to_project: ProjectId::new("beta"),
            connection_type: "solved_problem".into(),
            summary: "auth schema resolution is applicable here".into(),
            urgency: Urgency::High,
        }],
        100,
        5_000,
    );
    assert_eq!(dms.len(), 1, "expected one DM to beta agent");
    assert_eq!(dms[0].0.as_str(), "@beta-agent:matrix.test");
    assert!(dms[0].1.contains("[farcaster]"), "DM should be tagged");
    assert!(dms[0].1.contains("auth schema resolution"), "DM should include connection summary");
    assert_eq!(a.digest_buffer.len(), 1);
    assert_eq!(a.digest_buffer[0].whispered_at, Some(5_000));
    assert_eq!(a.reactive_tokens_used, 100);
}

#[test]
fn low_urgency_connection_skips_dm_but_records_digest_entry() {
    let mut a = agent(&["alpha", "beta"], &[("beta", "@beta:t")]);
    let dms = a.apply_connections(
        vec![CrossSpaceConnection {
            from_project: ProjectId::new("alpha"),
            to_project: ProjectId::new("beta"),
            connection_type: "convergence_opportunity".into(),
            summary: "might share a library eventually".into(),
            urgency: Urgency::Low,
        }],
        50,
        0,
    );
    assert!(dms.is_empty(), "Low urgency should not DM");
    assert_eq!(a.digest_buffer.len(), 1);
    assert!(a.digest_buffer[0].whispered_at.is_none());
}

#[test]
fn tick_with_empty_buffer_does_nothing() {
    let mut a = agent(&[], &[]);
    assert!(matches!(a.begin_tick(), AgentTick::Idle));
}

#[test]
fn tick_synthesizes_and_broadcasts_digest() {
    let mut a = agent(&["alpha"], &[]);
    a.digest_buffer.push(entry("alpha", "shared auth approach", &["alpha", "beta"], Urgency::Medium));
    let entries = match a.begin_tick() {
        AgentTick::Synthesize(e) => e,
        other => panic!("expected a synthesis, got {:?}", other),
    };
    assert!(a.digest_buffer.is_empty());
    let plan = a.apply_synthesis(&entries, &synthesis("skip", None, None), 200, 9_000);
    assert!(plan.broadcast.contains("Farcaster Digest"), "broadcast should be formatted digest");
    assert!(plan.broadcast.contains("centralize auth early"), "digest should include lesson");
    assert!(plan.contribution.is_none());
    assert_eq!(a.digest_tokens_used, 200);
    assert_eq!(a.last_digest_at, 9_000);
    assert_eq!(FARCASTER_ROOM, "#farcaster");
}

#[test]
fn tick_submits_to_farga_on_submit_verdict() {
    let mut a = agent(&["alpha"], &[]);
    let entries = vec![entry("alpha", "important pattern", &["alpha"], Urgency::High)];
    let plan = a.apply_synthesis(
        &entries,
        &synthesis("submit", Some("Replan Budget Lessons"), Some("Projects replanning aggressively see 40% token waste.")),
        500,
        2_000,
    );
    let c = plan.contribution.expect("expected one governance contribution");
    assert_eq!(c.title, "Replan Budget Lessons");
}

#[test]
fn tick_requeues_entries_on_farga_failure() {
    let mut a = agent(&[], &[]);
    a.digest_buffer.push(entry("alpha", "test entry", &[], Urgency::Low));
    let entries = match a.begin_tick() {
        AgentTick::Synthesize(e) => e,
        other => panic!("expected a synthesis, got {:?}", other),
    };
    a.requeue(entries);
    assert_eq!(a.digest_buffer.len(), 1, "entry should be re-queued after Farga failure");
    assert_eq!(a.digest_buffer[0].connection_summary, "test entry");
}

#[test]
fn tick_emits_governance_contribution_on_submit_verdict() {
    let mut a = agent(&["alpha", "beta"], &[]);
    let entries = vec![entry("alpha", "shared auth pattern", &["alpha", "beta"], Urgency::High)];
    let plan = a.apply_synthesis(
        &entries,
        &synthesis("submit", Some("JWT Signing Pattern"), Some("Two projects independently converged on RS256.")),
        300,
        7_000,
    );
    let c = plan.contribution.unwrap();
    assert_eq!(c.title, "JWT Signing Pattern");
    assert_eq!(c.event_count, 1);
    assert_eq!(c.target_layer, FargaLayer::ProjectLevel);
    assert!(c.reversibility.is_none());
    assert!(c.impact.is_none());
    assert_eq!(c.first_observed_at, 1_000);
    assert_eq!(c.last_observed_at, 7_000);
    let involved: Vec<&str> = c.involved_projects.iter().map(|p| p.as_str()).collect();
    assert_eq!(involved, vec!["alpha", "beta"]);
}

#[test]
fn reactive_budget_exhausted_defers_to_digest_without_calling_analyzer() {
    let mut a = agent(&["alpha", "beta"], &[]);
    a.reactive_tokens_used = 20_000;
    let event = MilestoneEvent::ArtifactProduced {
        mission_id: "m1".into(),
        session_id: "s1".into(),
        project_id: ProjectId::new("alpha"),
        canvas_id: "c1".into(),
        artifact_summary: "some artifact".into(),
        sub_objective_ids: vec![],
    };
    assert!(matches!(a.record_milestone(event, 0), ReactiveStep::Deferred));
    assert_eq!(a.digest_buffer.len(), 1, "deferred entry should be in digest_buffer");
    assert!(a.digest_buffer[0].connection_summary.contains("deferred"));
}

#[test]
fn digest_budget_exhausted_requeues_buffer_without_calling_analyzer() {
    let mut a = agent(&[], &[]);
    a.digest_tokens_used = 10_000;
    a.digest_buffer.push(entry("alpha", "pending entry", &[], Urgency::Low));
    assert!(matches!(a.begin_tick(), AgentTick::Deferred));
    assert_eq!(a.digest_buffer.len(), 1);
}

#[test]
fn event_ring_keeps_the_latest_fifty() {
    let mut a = agent(&["alpha"], &[]);
    for k in 0..60u32 {
        let ev = MilestoneEvent::ReplanTriggered {
            mission_id: "m".into(),
            project_id: ProjectId::new("alpha"),
            sub_objective_id: format!("o{}", k),
            reason: "r".into(),
            replan_count: 1,
        };
        a.record_milestone(ev, 0);
    }
    let ring = &a.event_buffer[0].1;
    assert_eq!(ring.len(), 50);
    match &ring[0] {
        MilestoneEvent::ReplanTriggered { sub_objective_id, .. } => assert_eq!(sub_objective_id, "o10"),
        _ => panic!("unexpected event"),
    }
}

#[test]
fn farcaster_agent_emits_domain_digest_upstream_after_tick() {
    let a = agent(&["api"], &[]).with_domain("engineering".to_string());
    let entries = vec![entry("api", "shared auth approach", &["api", "worker"], Urgency::Medium)];
    let s = DigestSynthesis {
        connections: vec!["api and worker share auth".into()],
        lessons: vec!["centralize auth".into()],
        open_questions: vec![],
        farga_verdict: "skip".into(),
        farga_title: Some("Auth Centralization".into()),
        farga_narrative: None,
    };
    let ev = a.upstream_digest(&entries, &s, None, 50_000).expect("a domain Farcaster reports upstream");
    assert_eq!(ev.domain, "engineering");
    assert_eq!(ev.title, "Auth Centralization");
    assert!(ev.lessons.contains(&"centralize auth".to_string()));
    assert!(ev.involved_projects.iter().any(|p| p.as_str() == "api"));
    assert!(ev.farga_node_id.is_none());
    assert_eq!((ev.period_start, ev.period_end), (1_000, 50_000));
}

#[test]
fn farcaster_agent_upstream_includes_node_id_on_submit() {
    let a = agent(&["api"], &[]).with_domain("engineering".to_string());
    let entries = vec![entry("api", "important pattern", &["api"], Urgency::High)];
    let s = synthesis("submit", Some("Engineering Pattern"), Some("Observed across projects."));
    let ev = a.upstream_digest(&entries, &s, Some("mock-node-id".to_string()), 1).unwrap();
    assert_eq!(ev.farga_node_id, Some("mock-node-id".to_string()));
    assert!(agent(&["api"], &[]).upstream_digest(&entries, &s, None, 1).is_none());
}

#[test]
fn derive_risk_factors_project_level_has_low_proximity() {
    assert!(risk_levels(&contribution()).primitive_proximity_tenths < 5);
}

#[test]
fn derive_risk_factors_org_level_has_high_proximity() {
    let mut c = contribution();
    c.target_layer = FargaLayer::OrgLevel;
    assert!(risk_levels(&c).primitive_proximity_tenths > 9);
}

#[test]
fn derive_risk_factors_irreversible_sets_flag() {
    let mut c = contribution();
    c.reversibility = Some(ReversibilityLevel::Irreversible);
    let r = risk_levels(&c);
    assert!(r.is_irreversible);
    assert_eq!(r.reversibility_tenths, 10);
}

#[test]
fn derive_risk_factors_org_wide_sets_flag() {
    let mut c = contribution();
    c.impact = Some(ImpactScope::OrgWide);
    let r = risk_levels(&c);
    assert!(r.is_org_wide);
    assert_eq!(r.impact_tenths, 10);
}

#[test]
fn derive_risk_factors_none_reversibility_is_zero() {
    let r = risk_levels(&contribution());
    assert_eq!(r.reversibility_tenths, 0);
    assert!(!r.is_irreversible);
    assert_eq!(r.impact_tenths, 0);
}

#[test]
fn derive_risk_factors_concurrence_caps_at_one() {
    let mut contrib = contribution();
    for i in 0..5 {
        contrib.concurrence.push(AgentConcurrence {
            project_id: format!("p{}", i),
            agent_address: format!("a{}", i),
            concurrence_type: ConcurrenceType::Whispered,
            note: None,
        });
    }
    let factors = risk_levels(&contrib);
    assert!(factors.signal_concurrence_quarters as f32 / 4.0 <= 1.0);
    assert_eq!(factors.signal_concurrence_quarters, 4);
}

#[test]
fn risk_signals_grow_with_concurrence_and_events() {
    let mut c = contribution();
    c.concurrence.push(AgentConcurrence {
        project_id: "p".into(),
        agent_address: "a".into(),
        concurrence_type: ConcurrenceType::Observed,
        note: None,
    });
    c.event_count = 7;
    let r = risk_levels(&c);
    assert_eq!(r.signal_concurrence_quarters, 1);
    assert_eq!(r.signal_velocity_tenths, 7);
    c.event_count = 25;
    assert_eq!(risk_levels(&c).signal_velocity_tenths, 10);
}

#[test]
fn http_farga_writer_is_send_sync() {
    fn _assert_send_sync<T: Send + Sync>() {}
    _assert_send_sync::<charradissa::farga::HttpFargaWriter>();
}

#[test]
fn domain_digest_event_summary_contains_domain_and_title() {
    let ev = domain_digest("engineering", "Auth convergence detected");
    assert!(ev.summary().contains("engineering"));
    assert!(ev.summary().contains("Auth convergence detected"));
    assert_eq!(ev.summary(), "domain digest [engineering]: Auth convergence detected");
}

#[test]
fn observation_event_milestone_summary_delegates() {
    let m = MilestoneEvent::MissionCompleted {
        mission_id: "m1".into(),
        project_id: ProjectId::new("alpha"),
        goal: "ship it".into(),
        completed_sub_objectives: vec![],
        verdict: "submit".into(),
    };
    let obs = ObservationEvent::Milestone(m.clone());
    assert_eq!(obs.summary(), m.summary());
    assert_eq!(m.summary(), "mission 'ship it' completed (submit)");
    assert!(obs.source_domain().is_none());
}

#[test]
fn observation_event_domain_digest_summary_and_source() {
    let obs = ObservationEvent::DomainDigest(domain_digest("data", "Schema evolution pattern"));
    assert!(obs.summary().contains("data"));
    assert_eq!(obs.source_domain(), Some("data"));
}

fn registry(pairs: &[(&str, &str)]) -> DomainRegistry {
    DomainRegistry::from_composition_addresses(
        pairs.iter().map(|(p, a)| (ProjectId::new(p), a.to_string())).collect(),
    )
}

#[test]
fn domain_registry_derives_domain_from_composition_address() {
    let r = registry(&[("api-gateway", "engineering/api-gateway"), ("billing", "business/billing")]);
    assert_eq!(r.domain_for(&ProjectId::new("api-gateway")), Some("engineering"));
    assert_eq!(r.domain_for(&ProjectId::new("billing")), Some("business"));
    assert_eq!(r.domain_for(&ProjectId::new("unknown")), None);
}

#[test]
fn domain_registry_projects_in_domain_returns_correct_set() {
    let r = registry(&[("api", "engineering/api"), ("worker", "engineering/worker"), ("billing", "business/billing")]);
    let eng: Vec<String> = r.projects_in_domain("engineering").iter().map(|p| p.as_str().to_string()).collect();
    assert_eq!(eng.len(), 2);
    assert!(eng.contains(&"api".to_string()));
    assert!(eng.contains(&"worker".to_string()));
}

#[test]
fn domain_registry_all_domains_sorted() {
    let r = registry(&[("x", "infra/x"), ("y", "data/y"), ("z", "engineering/z"), ("w", "data/w")]);
    assert_eq!(r.all_domains(), vec!["data", "engineering", "infra"]);
}

#[test]
fn cross_domain_farcaster_buffers_incoming_digest() {
    let mut f = CrossDomainFarcaster::new();
    match f.record_digest(domain_digest("engineering", "Auth pattern"), 0) {
        DigestStep::Analyze(snapshot) => {
            assert_eq!(snapshot.domains.len(), 1);
            assert_eq!(snapshot.domains[0].domain, "engineering");
        },
        other => panic!("expected an analysis, got {:?}", other),
    }
    let msgs = f.apply_analysis(vec![], 10, 0);
    assert!(msgs.is_empty());
    assert!(f.entry_buffer.is_empty());
}

#[test]
fn cross_domain_farcaster_high_urgency_broadcasts_to_room() {
    let mut f = CrossDomainFarcaster::new();
    let msgs = f.apply_analysis(
        vec![CrossDomainConnection {
            from_domain: "engineering".to_string(),
            to_domain: "data".to_string(),
            connection_type: "architectural_impact".to_string(),
            summary: "event schema change affects both domains".to_string(),
            urgency: Urgency::High,
        }],
        50,
        0,
    );
    assert_eq!(msgs.len(), 1);
    assert!(CROSS_DOMAIN_ROOM.contains("farcaster-cross-domain"));
    assert!(msgs[0].contains("[cross-domain]"));
    assert!(msgs[0].contains("event schema change affects both domains"));
    assert_eq!(f.entry_buffer.len(), 1);
}

#[test]
fn cross_domain_farcaster_low_urgency_skips_broadcast_but_records_entry() {
    let mut f = CrossDomainFarcaster::new();
    let msgs = f.apply_analysis(
        vec![CrossDomainConnection {
            from_domain: "engineering".to_string(),
            to_domain: "infra".to_string(),
            connection_type: "convergence_opportunity".to_string(),
            summary: "might share CI infrastructure eventually".to_string(),
            urgency: Urgency::Low,
        }],
        30,
        0,
    );
    assert!(msgs.is_empty(), "Low urgency should not broadcast");
    assert_eq!(f.entry_buffer.len(), 1);
    assert_eq!(f.entry_buffer[0].involved_domains, vec!["engineering", "infra"]);
}

#[test]
fn cross_domain_farcaster_tick_empty_buffer_does_nothing() {
    let mut f = CrossDomainFarcaster::new();
    assert!(matches!(f.begin_tick(), TickStep::Idle));
}

fn cross_entry(summary: &str, domains: &[&str], urgency: Urgency) -> CrossDomainEntry {
    CrossDomainEntry {
        from_domain: domains[0].to_string(),
        connection_summary: summary.to_string(),
        involved_domains: domains.iter().map(|d| d.to_string()).collect(),
        urgency,
        first_observed_at: 100,
    }
}

#[test]
fn cross_domain_farcaster_tick_synthesizes_and_broadcasts() {
    let mut f = CrossDomainFarcaster::new();
    f.entry_buffer.push(cross_entry("shared auth approach", &["engineering", "data"], Urgency::Medium));
    let entries = match f.begin_tick() {
        TickStep::Synthesize(e) => e,
        other => panic!("expected a synthesis, got {:?}", other),
    };
    let s = DigestSynthesis {
        connections: vec!["engineering and data converging on event sourcing".to_string()],
        lessons: vec!["event sourcing should be org-wide default".to_string()],
        open_questions: vec!["migration cost?".to_string()],
        farga_verdict: "skip".to_string(),
        farga_title: None,
        farga_narrative: None,
    };
    let plan = f.apply_synthesis(&entries, &s, 300, 1_000);
    assert!(plan.broadcast.contains("Cross-Domain Digest"));
    assert!(plan.broadcast.contains("event sourcing should be org-wide default"));
    assert!(plan.contribution.is_none());
}

#[test]
fn cross_domain_farcaster_tick_submits_to_farga_at_org_level() {
    let mut f = CrossDomainFarcaster::new();
    let entries = vec![cross_entry("important cross-domain pattern", &["engineering", "business"], Urgency::High)];
    let s = DigestSynthesis {
        connections: vec!["eng and business aligned on DDD".to_string()],
        lessons: vec!["domain-driven design should be adopted org-wide".to_string()],
        open_questions: vec![],
        farga_verdict: "submit".to_string(),
        farga_title: Some("DDD Org Adoption".to_string()),
        farga_narrative: Some("Two domains independently converged on DDD boundaries.".to_string()),
    };
    let c = f.apply_synthesis(&entries, &s, 500, 2_000).contribution.unwrap();
    assert_eq!(c.title, "DDD Org Adoption");
    assert_eq!(c.target_layer, FargaLayer::OrgLevel);
}

#[test]
fn cross_domain_budget_exhausted_defers_digest() {
    let mut f = CrossDomainFarcaster::new();
    f.reactive_tokens_used = f.daily_reactive_token_budget;
    assert!(matches!(f.record_digest(domain_digest("data", "T"), 0), DigestStep::Deferred));
    assert_eq!(f.entry_buffer.len(), 1);
    assert_eq!(f.entry_buffer[0].connection_summary, "deferred (budget): domain digest [data]: T");
}

#[test]
fn digest_text_lists_sections_with_items() {
    let text = format_digest(&synthesis("skip", None, None), DigestScope::CrossSpace);
    assert!(text.contains("Farcaster Digest"));
    assert!(text.contains("- centralize auth early\n"));
    assert!(text.contains("- which library?\n"));
}

#[test]
fn analyzer_answers_are_read() {
    assert_eq!(extract_json("here:\n```json\n[1]\n```"), "[1]");
    assert_eq!(extract_json("prefix [1, 2]"), "[1, 2]");
    assert_eq!(extract_json("{\"a\": 1}"), "{\"a\": 1}");
    assert_eq!(parse_urgency("HIGH"), Urgency::High);
    assert_eq!(parse_urgency("medium"), Urgency::Medium);
    assert_eq!(parse_urgency("urgent"), Urgency::Low);
}

#[test]
fn concurrence_types_are_distinct() {
    let c = AgentConcurrence {
        project_id: "alpha".into(),
        agent_address: "alpha/dev+builder".into(),
        concurrence_type: ConcurrenceType::Whispered,
        note: Some("confirmed via DM".into()),
    };
    assert_eq!(c.concurrence_type, ConcurrenceType::Whispered);
    assert_ne!(ConcurrenceType::Observed, ConcurrenceType::Acknowledged);
}
