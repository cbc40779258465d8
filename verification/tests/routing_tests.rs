use charradissa::routing::{fnv1a_64, project_session_id};

#[test]
fn session_id_is_deterministic() {
    let room = "!proj-a:occitane.guilhem";
    assert_eq!(project_session_id(room), project_session_id(room));
}

#[test]
fn session_id_has_project_prefix() {
    assert!(project_session_id("!r:occitane.guilhem").starts_with("project-"));
}

#[test]
fn session_id_is_url_safe() {
    let id = project_session_id("!aBcD:occitane.guilhem");
    assert!(
        id.chars().all(|c| c.is_ascii_lowercase() || c.is_ascii_digit() || c == '-'),
        "session id must be URL-safe, got {id:?}"
    );
    assert!(!id.contains('!'));
    assert!(!id.contains(':'));
}

#[test]
fn distinct_rooms_get_distinct_session_ids() {
    assert_ne!(
        project_session_id("!proj-a:occitane.guilhem"),
        project_session_id("!proj-b:occitane.guilhem"),
    );
}

#[test]
fn fnv1a_matches_reference_values() {
    assert_eq!(fnv1a_64(""), 0xcbf2_9ce4_8422_2325);
    assert_eq!(fnv1a_64("a"), 0xaf63_dc4c_8601_ec8c);
    assert_eq!(project_session_id(""), "project-cbf29ce484222325");
    assert_eq!(project_session_id("a").len(), 24);
}
