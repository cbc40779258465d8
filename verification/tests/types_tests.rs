use charradissa::types::{CompositionAddress, ProjectId, RoomId, TaskOptions, UserId};

#[test]
fn room_id_roundtrip() {
    let id = RoomId::new("!abc123:matrix.acme.internal");
    assert_eq!(id.as_str(), "!abc123:matrix.acme.internal");
}

#[test]
fn composition_address_display() {
    let addr = CompositionAddress::Role { role: "tech-moderator".into(), stance_override: None };
    assert!(addr.to_string().contains("tech-moderator"));
}

#[test]
fn ids_display_as_themselves() {
    assert_eq!(UserId::new("@a:b").to_string(), "@a:b");
    assert_eq!(ProjectId::new("alpha").to_string(), "alpha");
    assert!(ProjectId::new("alpha").same(&ProjectId::new("alpha")));
    let t = TaskOptions::empty();
    assert!(t.title.is_empty() && t.assignee.is_none());
}
