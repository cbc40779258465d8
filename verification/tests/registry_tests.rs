use charradissa::daemon::registry::AgentRegistry;
use charradissa::types::{ProjectId, UserId};

#[test]
fn a_project_reads_back_its_last_registration() {
    let mut reg = AgentRegistry::new();
    let alpha = ProjectId::new("alpha");
    assert!(reg.project_agent(&alpha).is_none());
    reg.register_project_agent(ProjectId::new("alpha"), UserId::new("@a1:s"));
    reg.register_org_agent(UserId::new("@org:s"));
    reg.register_project_agent(ProjectId::new("beta"), UserId::new("@b:s"));
    reg.register_project_agent(ProjectId::new("alpha"), UserId::new("@a2:s"));
    reg.register_concierge(UserId::new("@concierge:s"));
    assert_eq!(reg.project_agent(&alpha).map(|u| u.as_str()), Some("@a2:s"));
    assert_eq!(reg.project_agent(&ProjectId::new("beta")).map(|u| u.as_str()), Some("@b:s"));
    assert!(reg.project_agent(&ProjectId::new("gamma")).is_none());
    assert_eq!(reg.org_agent().map(|u| u.as_str()), Some("@org:s"));
    assert_eq!(reg.concierge().map(|u| u.as_str()), Some("@concierge:s"));
}
