use charradissa::concierge::{
    archival_signal, extract_signals, harvest_digest, ConciergeAgent, TickSchedule, ARCHIVAL_PROJECT,
    ARCHIVAL_SOURCE, HARVEST_MAX_BYTES,
};
use charradissa::types::{ChatEvent, ChatEventKind, RoomId, UserId};

fn msg(room: &str, sender: &str, content: &str) -> ChatEvent {
    ChatEvent {
        event_id: "$1".into(),
        room_id: RoomId::new(room),
        sender: UserId::new(sender),
        content: content.into(),
        timestamp: 0,
        kind: ChatEventKind::Message,
    }
}

#[test]
fn harvest_digest_contains_sender_content_and_room() {
    let room = RoomId::new("!abc:occitane.guilhem");
    let events = vec![msg("!abc:occitane.guilhem", "@p:occitane.guilhem", "hello world")];
    let digest = harvest_digest(&room, &events);
    assert!(digest.contains("!abc:occitane.guilhem"), "must include room id");
    assert!(digest.contains("@p:occitane.guilhem"), "must include sender");
    assert!(digest.contains("hello world"), "must include content");
    assert_eq!(digest, "[room harvest: !abc:occitane.guilhem]\n@p:occitane.guilhem: hello world\n");
}

#[test]
fn harvest_digest_truncates_at_8000() {
    let room = RoomId::new("!r:s");
    let events = vec![msg("!r:s", "@u:s", &"x".repeat(9000))];
    let digest = harvest_digest(&room, &events);
    assert!(digest.len() <= 8030, "truncated digest should not exceed 8000 + truncation suffix");
    assert!(digest.contains("truncated"), "must include truncation marker");
    assert_eq!(digest.len(), HARVEST_MAX_BYTES + "\n…(truncated)".len());
}

#[test]
fn harvest_cut_falls_on_a_character_boundary() {
    let room = RoomId::new("!r:s");
    // Each 'é' takes two bytes, so byte 8000 may fall inside one.
    let events = vec![msg("!r:s", "@u:s", &"é".repeat(5000))];
    let digest = harvest_digest(&room, &events);
    assert!(digest.ends_with("\n…(truncated)"));
    let kept = digest.trim_end_matches("\n…(truncated)");
    assert!(kept.len() <= HARVEST_MAX_BYTES);
    assert!(kept.len() > HARVEST_MAX_BYTES - 2);
}

#[test]
fn extracts_signals_from_events() {
    let events = vec![
        msg("!room:matrix.test", "@agent:matrix.test", "Decision: use PostgreSQL for the user service."),
        msg("!room:matrix.test", "@human:matrix.test", "Blocker: we need a design review before proceeding."),
    ];
    let signals = extract_signals(&events);
    assert!(!signals.is_empty());
    assert_eq!(signals.len(), 2);
    assert_eq!(signals[0].source, ARCHIVAL_SOURCE);
}

#[test]
fn ordinary_chatter_is_no_signal() {
    let events = vec![msg("!room:t", "@a:t", "lunch at noon?"), msg("!room:t", "@b:t", "PATTERN: retries")];
    let signals = extract_signals(&events);
    assert_eq!(signals.len(), 1);
    assert_eq!(signals[0].content, "PATTERN: retries");
}

#[test]
fn archival_signal_only_for_active_rooms() {
    let room = RoomId::new("!r:s");
    assert!(archival_signal(&room, &[]).is_none());
    let s = archival_signal(&room, &[msg("!r:s", "@u:s", "hi")]).unwrap();
    assert_eq!(s.project, ARCHIVAL_PROJECT);
    assert_eq!(s.source, ARCHIVAL_SOURCE);
    assert!(s.content.contains("@u:s: hi"));
}

#[test]
fn schedule_fires_due_agents_and_reschedules_them() {
    let mut sched = TickSchedule::new();
    sched.add(1000, 0);
    sched.add(5000, 0);
    assert!(sched.due(500).is_empty());
    assert_eq!(sched.due(1000), vec![0]);
    assert_eq!(sched.next, vec![2000, 5000]);
    assert_eq!(sched.due(6000), vec![0, 1]);
    assert_eq!(sched.next, vec![7000, 11000]);
}

#[test]
fn an_agent_ticks_once_per_instant() {
    let mut sched = TickSchedule::new();
    sched.add(1000, 0);
    assert_eq!(sched.due(1500), vec![0]);
    assert!(sched.due(1500).is_empty());
    assert_eq!(sched.next, vec![2500]);
}

#[test]
fn concierge_registers_agents_and_computes_archival_window() {
    let mut c = ConciergeAgent::new(vec![], vec![], 24, 6, 50_000);
    assert_eq!(c.register_system_agent(3_600_000, 0), 0);
    assert_eq!(c.register_system_agent(3_600_000, 0), 1);
    assert_eq!(c.archival_since(100_000_000), 100_000_000 - 24 * 3_600_000);
    assert_eq!(c.archival_since(i64::MIN), i64::MIN);
}
