use charradissa::matrix::client::{
    image_mimetype, join_outcome, markdown_body, message_body_from, messages_from_chunk, pct,
    user_id, AppserviceClient, ChunkEvent, JoinOutcome,
};

fn client() -> AppserviceClient {
    AppserviceClient::new(
        "http://synapse:8008".to_string(),
        "test_token".to_string(),
        "@bot:occitane.guilhem".to_string(),
        "occitane.guilhem".to_string(),
    )
}

#[test]
fn user_id_uses_server_name_not_url() {
    assert_eq!(user_id("guilhem", "occitane.guilhem").as_str(), "@guilhem:occitane.guilhem");
}

#[test]
fn pct_encodes_matrix_sigils_and_colon() {
    assert_eq!(pct("!room:server"), "%21room%3Aserver");
    assert_eq!(pct("#alias:server"), "%23alias%3Aserver");
    assert_eq!(pct("@user:server"), "%40user%3Aserver");
    assert_eq!(pct("plain"), "plain");
}

#[test]
fn create_or_join_aliased_room_builds_correct_alias() {
    let alias = format!("#{}:{}", "amassada", "occitane.guilhem");
    assert_eq!(pct(&alias), "%23amassada%3Aoccitane.guilhem");
    assert_eq!(client().room_alias("amassada"), "#amassada:occitane.guilhem");
}

#[test]
fn plain_prose_has_no_formatted_body() {
    let body = markdown_body("hello world");
    assert!(body.formatted_body.is_none());
    assert_eq!(body.body, "hello world");
}

#[test]
fn bold_text_produces_formatted_body() {
    let body = markdown_body("**important**");
    let html = body.formatted_body.expect("markup is rendered");
    assert!(html.contains("<strong>important</strong>"), "got: {html}");
}

#[test]
fn code_block_produces_formatted_body() {
    let html = markdown_body("```rust\nfn main() {}\n```").formatted_body.unwrap();
    assert!(html.contains("<pre><code"), "got: {html}");
}

#[test]
fn plain_body_preserved_alongside_html() {
    let md = "**bold** text";
    assert_eq!(markdown_body(md).body, md);
}

#[test]
fn mermaid_fence_produces_language_mermaid_class() {
    let html = markdown_body("```mermaid\ngraph LR\n  A --> B\n```").formatted_body.unwrap();
    assert!(html.contains(r#"class="language-mermaid""#), "got: {html}");
}

#[test]
fn bullet_list_produces_formatted_body() {
    let html = markdown_body("- item one\n- item two").formatted_body.unwrap();
    assert!(html.contains("<ul>") && html.contains("<li>"), "got: {html}");
}

#[test]
fn formatted_part_is_dropped_when_html_only_wraps_the_text() {
    assert!(message_body_from("hi", "<p>hi</p>\n".to_string()).formatted_body.is_none());
    assert!(message_body_from("hi", "<p><em>hi</em></p>\n".to_string()).formatted_body.is_some());
}

#[test]
fn client_urls_and_auth() {
    let c = client();
    assert_eq!(c.auth_header(), "Bearer test_token");
    assert_eq!(c.api_url("createRoom"), "http://synapse:8008/_matrix/client/v3/createRoom");
    assert_eq!(c.room_url("!r:s", "leave"), "http://synapse:8008/_matrix/client/v3/rooms/%21r%3As/leave");
    let send = c.send_message_url("!r:s", Some("farga"));
    assert!(send.starts_with("http://synapse:8008/_matrix/client/v3/rooms/%21r%3As/send/m.room.message/"));
    assert!(send.ends_with("?user_id=%40farga%3Aoccitane.guilhem"));
    assert_eq!(c.self_localpart(), "bot");
}

#[test]
fn create_room_with_owner_grants_owner_100_and_sender_50() {
    let users = client().room_power_users(Some("amassada"));
    assert!(users.contains(&("@amassada:occitane.guilhem".to_string(), 100)));
    assert!(users.contains(&("@bot:occitane.guilhem".to_string(), 50)));
    assert!(users.contains(&("@farga:occitane.guilhem".to_string(), 50)));
}

fn last_level(users: &[(String, i64)], user: &str) -> Option<i64> {
    users.iter().rev().find(|(u, _)| u == user).map(|(_, l)| *l)
}

#[test]
fn room_without_owner_keeps_the_sender_at_creator_level() {
    let c = AppserviceClient::new(
        "http://synapse:8008".to_string(),
        "test_token".to_string(),
        "@charradissa:occitane.guilhem".to_string(),
        "occitane.guilhem".to_string(),
    );
    let users = c.room_power_users(None);
    assert_eq!(last_level(&users, "@charradissa:occitane.guilhem"), None);
    assert_eq!(last_level(&users, "@amassada:occitane.guilhem"), Some(50));
    assert_eq!(users.len(), 8);
    let owned = c.room_power_users(Some("amassada"));
    assert_eq!(last_level(&owned, "@amassada:occitane.guilhem"), Some(100));
    assert_eq!(last_level(&owned, "@charradissa:occitane.guilhem"), Some(50));
    assert_eq!(last_level(&owned, "@farga:occitane.guilhem"), Some(50));
}

#[test]
fn kick_power_only_for_agents_below_fifty() {
    let c = client();
    let levels = vec![("@farga:occitane.guilhem".to_string(), 50), ("@cor:occitane.guilhem".to_string(), 0)];
    let grants = c.kick_power_grants(&levels);
    assert!(grants.contains(&"@cor:occitane.guilhem".to_string()));
    assert!(!grants.contains(&"@farga:occitane.guilhem".to_string()));
}

#[test]
fn kick_power_grants_are_idempotent() {
    let c = client();
    let mut levels = vec![("@farga:occitane.guilhem".to_string(), 50), ("@cor:occitane.guilhem".to_string(), 0)];
    let grants = c.kick_power_grants(&levels);
    assert_eq!(grants.len(), 8);
    for g in grants {
        levels.push((g, 50));
    }
    assert!(c.kick_power_grants(&levels).is_empty());
}

#[test]
fn join_outcomes_and_mimetypes() {
    assert_eq!(join_outcome(true, 200), JoinOutcome::Joined);
    assert_eq!(join_outcome(false, 404), JoinOutcome::Create);
    assert_eq!(join_outcome(false, 400), JoinOutcome::Create);
    assert_eq!(join_outcome(false, 403), JoinOutcome::Failed);
    assert_eq!(image_mimetype("diagram.svg"), "image/svg+xml");
    assert_eq!(image_mimetype("x.png"), "image/png");
}

#[test]
fn dm_room_detection_and_history() {
    let c = client();
    assert!(c.is_dm_with(&vec!["@bot:occitane.guilhem".into(), "@farga:occitane.guilhem".into()], "@farga:occitane.guilhem"));
    assert!(!c.is_dm_with(&vec!["@bot:occitane.guilhem".into(), "@farga:occitane.guilhem".into(), "@x:s".into()], "@farga:occitane.guilhem"));
    let chunk = vec![
        ChunkEvent { event_type: Some("m.room.message".into()), event_id: Some("$2".into()), sender: Some("@b:s".into()), body: Some("two".into()) },
        ChunkEvent { event_type: Some("m.room.message".into()), event_id: Some("$1".into()), sender: Some("@a:s".into()), body: Some("one".into()) },
    ];
    assert_eq!(messages_from_chunk(&chunk), vec![("@a:s".to_string(), "one".to_string()), ("@b:s".to_string(), "two".to_string())]);
}
