use charradissa::dm_registry::{normalize_agent, DmRegistry};

fn sample() -> DmRegistry {
    DmRegistry::from_map(vec![
        ("farga".to_string(), "!abc:occitane.guilhem".to_string()),
        ("amassada".to_string(), "!def:occitane.guilhem".to_string()),
    ])
}

#[test]
fn resolves_by_bare_localpart() {
    assert_eq!(sample().resolve("farga"), Some("!abc:occitane.guilhem"));
}

#[test]
fn resolves_by_full_mxid() {
    assert_eq!(sample().resolve("@amassada:occitane.guilhem"), Some("!def:occitane.guilhem"));
}

#[test]
fn unknown_agent_resolves_none() {
    assert_eq!(sample().resolve("nonexistent"), None);
}

#[test]
fn normalize_strips_sigil_and_server() {
    assert_eq!(normalize_agent("@farga:occitane.guilhem"), "farga");
    assert_eq!(normalize_agent("farga"), "farga");
}

#[test]
fn empty_registry_resolves_nothing() {
    let reg = DmRegistry::empty();
    assert!(reg.is_empty());
    assert_eq!(reg.len(), 0);
    assert_eq!(reg.resolve("farga"), None);
}

#[test]
fn from_map_keeps_the_later_room_of_a_repeated_key() {
    let reg = DmRegistry::from_map(vec![
        ("farga".to_string(), "!one:occitane.guilhem".to_string()),
        ("farga".to_string(), "!two:occitane.guilhem".to_string()),
    ]);
    assert_eq!(reg.len(), 1);
    assert_eq!(reg.resolve("farga"), Some("!two:occitane.guilhem"));
}

#[test]
fn mxid_and_localpart_resolve_alike() {
    let reg = sample();
    assert_eq!(reg.resolve("@farga:any.server"), reg.resolve("farga"));
}
