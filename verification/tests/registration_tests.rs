use charradissa::daemon::startup::registration_params;
use charradissa::registration::{generate_registration, RegistrationParams, COMPONENT_AGENT_LOCALPARTS};

fn sample_params() -> RegistrationParams {
    RegistrationParams {
        id: "charradissa".into(),
        url: "http://charradissa:8448".into(),
        as_token: "as-secret".into(),
        hs_token: "hs-secret".into(),
        sender_localpart: "charradissa".into(),
        server_name: "occitane.guilhem".into(),
        component_localparts: COMPONENT_AGENT_LOCALPARTS.iter().map(|s| s.to_string()).collect(),
    }
}

#[test]
fn there_are_eight_canonical_component_agents() {
    assert_eq!(COMPONENT_AGENT_LOCALPARTS.len(), 8);
    for lp in ["guilhem", "gardian", "fondament", "farga", "amassada", "cor", "caissa", "nervi"] {
        assert!(COMPONENT_AGENT_LOCALPARTS.contains(&lp), "canonical component agent {lp} is missing");
    }
}

#[test]
fn embeds_identity_tokens_and_url() {
    let yaml = generate_registration(&sample_params());
    assert!(yaml.contains("id: charradissa"));
    assert!(yaml.contains("url: http://charradissa:8448"));
    assert!(yaml.contains("as_token: as-secret"));
    assert!(yaml.contains("hs_token: hs-secret"));
    assert!(yaml.contains("sender_localpart: charradissa"));
}

#[test]
fn keeps_sender_and_specialist_namespace() {
    let yaml = generate_registration(&sample_params());
    assert!(yaml.contains(r"@charradissa:occitane\.guilhem"));
    assert!(yaml.contains("@charradissa-.*"));
}

#[test]
fn includes_every_component_agent_localpart() {
    let yaml = generate_registration(&sample_params());
    for lp in COMPONENT_AGENT_LOCALPARTS {
        assert!(
            yaml.contains(&format!(r"@{lp}:occitane\.guilhem")),
            "user namespace is missing an entry for @{lp}"
        );
    }
}

#[test]
fn escapes_server_name_dots_in_regexes() {
    let yaml = generate_registration(&sample_params());
    assert!(yaml.contains(r"occitane\.guilhem"));
    assert!(!yaml.contains("occitane.guilhem"));
}

#[test]
fn registration_yaml_has_exact_layout() {
    let p = RegistrationParams {
        id: "a".into(),
        url: "u".into(),
        as_token: "t1".into(),
        hs_token: "t2".into(),
        sender_localpart: "s".into(),
        server_name: "x.y".into(),
        component_localparts: vec![],
    };
    assert_eq!(
        generate_registration(&p),
        "id: a\nurl: u\nas_token: t1\nhs_token: t2\nsender_localpart: s\nnamespaces:\n  users:\n    - exclusive: true\n      regex: '@s:x\\.y'\n    - exclusive: true\n      regex: '@s-.*'\n  rooms: []\n  aliases: []\n"
    );
}

#[test]
fn daemon_registration_defaults() {
    let p = registration_params("occitane.guilhem", "8448", None, None, None);
    assert_eq!(p.url, "http://charradissa:8448");
    assert_eq!(p.as_token, "dev-token");
    assert_eq!(p.hs_token, "dev-hs-token");
    assert_eq!(p.sender_localpart, "charradissa-relay");
    assert!(p.component_localparts.is_empty());
    let q = registration_params("s", "1", Some("http://x".into()), Some("a".into()), Some("h".into()));
    assert_eq!((q.url.as_str(), q.as_token.as_str(), q.hs_token.as_str()), ("http://x", "a", "h"));
}
