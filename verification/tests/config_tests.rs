use charradissa::config::{
    hs_token_from, listen_port_from, AgentsConfig, ApprovalConfig, ConciergeConfig,
    ProjectAgentConfig, ProvisioningConfig, DEFAULT_LISTEN_PORT,
};
use charradissa::daemon::startup::project_routes;

fn project(id: &str, rooms: &[&str], endpoint: &str) -> ProjectAgentConfig {
    ProjectAgentConfig {
        agent_type: "amassada_backed".into(),
        rooms: rooms.iter().map(|r| r.to_string()).collect(),
        project_id: id.into(),
        endpoint: endpoint.into(),
    }
}

#[test]
fn empty_project_config_is_valid() {
    let cfg = AgentsConfig::empty();
    assert!(cfg.project.is_empty());
    assert!(cfg.routes.is_empty());
    assert!(cfg.default.is_none());
}

#[test]
fn provisioning_defaults_to_occitan_project() {
    let p = ProvisioningConfig::default();
    assert_eq!(p.projects, vec!["occitan"]);
    assert!(p.fondament_url.is_none());
}

#[test]
fn concierge_and_approval_defaults() {
    let c = ConciergeConfig::default();
    assert_eq!((c.archival_interval_hours, c.convergence_interval_hours, c.daily_token_budget), (24, 6, 50_000));
    assert_eq!(ApprovalConfig::default().timeout_minutes, 60);
}

#[test]
fn uses_matrix_hs_token_when_set() {
    assert_eq!(hs_token_from(Some("explicit-hs-secret"), "as-secret"), "explicit-hs-secret");
}

#[test]
fn falls_back_to_as_token_when_matrix_hs_token_unset() {
    assert_eq!(hs_token_from(None, "as-secret"), "as-secret");
}

#[test]
fn listen_port_reads_renamed_var_and_ignores_legacy_collision() {
    assert_eq!(listen_port_from(None), "8448");
    assert_eq!(listen_port_from(None), DEFAULT_LISTEN_PORT);
    assert_eq!(listen_port_from(Some("9000")), "9000");
}

#[test]
fn project_routes_map_room_to_project_config() {
    let projects = vec![
        project("alpha", &["!proj-a:occitane.guilhem", "!proj-b:occitane.guilhem"], "http://amassada:7700/sessions/{room_id}/message"),
        project("beta", &["!proj-c:occitane.guilhem"], "http://amassada:7700/sessions/{session_id}/message"),
    ];
    let routes = project_routes(&projects);
    assert_eq!(routes.len(), 3);
    assert_eq!(routes[0].0, "!proj-a:occitane.guilhem");
    assert_eq!(routes[0].1.project_id, "alpha");
    assert_eq!(routes[1].0, "!proj-b:occitane.guilhem");
    assert_eq!(routes[1].1.project_id, "alpha");
    assert_eq!(routes[2].0, "!proj-c:occitane.guilhem");
    assert_eq!(routes[2].1.project_id, "beta");
    assert_eq!(routes[2].1.rooms, vec!["!proj-c:occitane.guilhem"]);
}
