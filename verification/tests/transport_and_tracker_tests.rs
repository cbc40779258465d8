use charradissa::error::CharradissaError;
use charradissa::graph_context::transcript_segment;
use charradissa::jira::{created_task, JiraTaskManager};
use charradissa::task::TaskManager;
use charradissa::transport::{consult_system_prompt, format_event, output_report, OutputArtifact, SessionNotice};
use charradissa::types::{Assignee, ChatEvent, ChatEventKind, ProjectId, RoomId, TaskId, TaskStatus, UserId};

#[test]
fn session_events_are_shown_in_the_room() {
    assert_eq!(
        format_event(&SessionNotice::TurnCompleted { agent_id: "a1".into(), persona: "builder".into(), content: "done".into() }),
        "**[a1 / builder]**\ndone"
    );
    assert_eq!(format_event(&SessionNotice::RoundStarted { round: 3 }), "--- Round 3 ---");
    assert_eq!(format_event(&SessionNotice::SessionCompleted), "Session complete.");
    assert_eq!(format_event(&SessionNotice::ArtifactCompleted { title: "Plan".into() }), "Artifact ready: **Plan**");
    assert_eq!(format_event(&SessionNotice::Other { debug: "Paused".into() }), "Paused");
}

#[test]
fn consultations_ask_the_persona() {
    assert!(consult_system_prompt("builder-1").starts_with("You are builder — a specialist agent."));
    assert!(consult_system_prompt("critic").starts_with("You are critic — "));
}

#[test]
fn session_output_report() {
    let arts = vec![
        OutputArtifact { title: "A".into(), content: "x".into() },
        OutputArtifact { title: "B".into(), content: "y".into() },
    ];
    assert_eq!(output_report("design", &arts), "**Session Output** (design)\n\n### A\nx\n\n### B\ny");
}

#[test]
fn transcript_ends_with_the_latest_message() {
    let ev = |s: &str, c: &str| ChatEvent {
        event_id: "$".into(),
        room_id: RoomId::new("!r:s"),
        sender: UserId::new(s),
        content: c.into(),
        timestamp: 0,
        kind: ChatEventKind::Message,
    };
    assert_eq!(transcript_segment(&[ev("@a:s", "hi")], &ev("@b:s", "yo")), "@a:s: hi\n@b:s: yo\n");
}

#[test]
fn jira_requests_and_answers() {
    let j = JiraTaskManager::new("https://x.atlassian.net".into(), "OPS".into(), "tok".into(), "me@x.org".into());
    assert_eq!(j.issue_url(), "https://x.atlassian.net/rest/api/3/issue");
    assert_eq!(j.auth(), "Basic bWVAeC5vcmc6dG9r");
    match created_task(Some("10001".into())) {
        Ok(t) => assert_eq!(t.as_str(), "10001"),
        Err(e) => panic!("unexpected {:?}", e),
    }
    match created_task(None) {
        Err(CharradissaError::Tool(m)) => assert_eq!(m, "no id in Jira response"),
        other => panic!("unexpected {:?}", other.map(|t: TaskId| t.as_str().to_string())),
    }
    match j.get_task(&TaskId::new("1")) {
        Err(CharradissaError::Tool(m)) => assert_eq!(m, "get_task: not implemented"),
        other => panic!("unexpected {:?}", other.map(|t| t.id.as_str().to_string())),
    }
    assert_eq!(j.list_open(&ProjectId::new("ops")).map(|v| v.len()), Ok(0));
    assert!(j.assign_task(&TaskId::new("1"), &Assignee::Human(UserId::new("@p:s"))).is_ok());
    assert!(j.update_status(&TaskId::new("1"), TaskStatus::Done).is_ok());
}

fn tracker_lists(t: &dyn TaskManager) -> usize {
    t.list_open(&ProjectId::new("ops")).map(|v| v.len()).unwrap_or(usize::MAX)
}

#[test]
fn task_manager_is_object_safe() {
    let j = JiraTaskManager::new("https://x.atlassian.net".into(), "OPS".into(), "tok".into(), "me@x.org".into());
    assert_eq!(tracker_lists(&j), 0);
}
