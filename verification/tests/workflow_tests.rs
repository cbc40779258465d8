use charradissa::approval::{ApprovalStatus, PendingApprovalRecord};
use charradissa::daemon::ctl::{
    api_morning_lines, daemon_binary, launchd_plist, morning_lines, observe_poll, observe_url,
    parse_ctl_args, queue_file, service_config, systemd_unit, utc_day_of, wrap_lines,
    ApiPendingItem, CtlCommand,
};
use charradissa::daemon::startup::{
    config_or_env, listen_address, or_default, relay_user_id, wants_registration,
};

fn args(v: &[&str]) -> Vec<String> {
    v.iter().map(|s| s.to_string()).collect()
}

fn record(id: &str, created_at: i64, status: ApprovalStatus) -> PendingApprovalRecord {
    PendingApprovalRecord {
        id: id.into(),
        room_id: "!r:s".into(),
        category: "code".into(),
        description: "merge".into(),
        params: serde_json::Value::Null,
        created_at,
        status,
    }
}

fn item(id: Option<&str>, cat: Option<&str>, desc: Option<&str>) -> ApiPendingItem {
    ApiPendingItem {
        id: id.map(|s| s.to_string()),
        room_id: None,
        category: cat.map(|s| s.to_string()),
        description: desc.map(|s| s.to_string()),
    }
}

#[test]
fn ctl_commands_are_parsed() {
    assert_eq!(parse_ctl_args(&args(&["ctl", "morning"])), CtlCommand::Morning);
    assert_eq!(parse_ctl_args(&args(&["ctl", "wrap"])), CtlCommand::Wrap);
    assert_eq!(parse_ctl_args(&args(&["ctl", "observe", "!r:s"])), CtlCommand::Observe { room_id: "!r:s".into() });
    assert_eq!(parse_ctl_args(&args(&["ctl", "observe"])), CtlCommand::Observe { room_id: "*".into() });
    assert_eq!(parse_ctl_args(&args(&["ctl", "service", "install"])), CtlCommand::ServiceInstall);
    assert_eq!(parse_ctl_args(&args(&["ctl", "service"])), CtlCommand::ServiceUsage);
    assert_eq!(parse_ctl_args(&args(&["ctl"])), CtlCommand::Usage);
    assert_eq!(queue_file(None), "charradissa-queue.json");
    assert_eq!(queue_file(Some("q.json".into())), "q.json");
}

#[test]
fn morning_briefing_lists_pending() {
    let lines = morning_lines(&vec![record("a1", 0, ApprovalStatus::Pending)]);
    assert_eq!(lines, vec!["=== Morning Briefing ===", "Pending approvals: 1", "  [a1] room=!r:s [code] merge"]);
    let empty = morning_lines(&vec![]);
    assert_eq!(empty, vec!["=== Morning Briefing ===", "Pending approvals: 0", "  (no pending approvals)"]);
    let api = api_morning_lines(None, &vec![item(Some("x"), None, Some("d"))]);
    assert_eq!(api, vec!["=== Morning Briefing ===", "Pending approvals (from API): 0", "  [x] room=? [?] d"]);
}

#[test]
fn wrap_counts_todays_resolutions() {
    let day = 86_400_000i64;
    let now = 10 * day + 5;
    let records = vec![
        record("a", 10 * day, ApprovalStatus::Approved),
        record("b", 10 * day + 1, ApprovalStatus::Rejected("no".into())),
        record("c", 10 * day + 2, ApprovalStatus::Pending),
        record("d", 9 * day, ApprovalStatus::Approved),
    ];
    assert_eq!(
        wrap_lines(&records, now),
        vec!["=== End-of-Day Wrap ===", "Approvals resolved today: 2 total (1 approved, 1 rejected)"]
    );
    assert_eq!(utc_day_of(-1), -1);
    assert_eq!(utc_day_of(0), 0);
    assert_eq!(utc_day_of(day - 1), 0);
}

#[test]
fn observe_reports_each_new_request_once() {
    assert_eq!(observe_url(&None, "!r:s"), "http://localhost:8448/api/queue?room=!r:s");
    assert_eq!(observe_url(&Some("http://d".into()), "*"), "http://d/api/queue?room=*");
    let mut seen: Vec<String> = vec![];
    let first = observe_poll(&mut seen, &vec![item(Some("a"), Some("code"), None), item(None, None, None), item(Some("a"), None, None)]);
    assert_eq!(first, vec!["  NEW [a] [code] ?"]);
    let second = observe_poll(&mut seen, &vec![item(Some("a"), None, None), item(Some("b"), None, Some("x"))]);
    assert_eq!(second, vec!["  NEW [b] [?] x"]);
    assert_eq!(seen, vec!["a", "b"]);
}

#[test]
fn service_files_start_the_daemon() {
    assert_eq!(daemon_binary("/usr/bin/charradissa-ctl"), "/usr/bin/charradissa-daemon");
    assert_eq!(service_config(None), "charradissa.toml");
    let unit = systemd_unit("/bin/d", "/etc/c.toml");
    assert!(unit.contains("ExecStart=/bin/d\n"));
    assert!(unit.contains("Environment=CHARRADISSA_CONFIG=/etc/c.toml\n"));
    let plist = launchd_plist("/bin/d", "/etc/c.toml");
    assert!(plist.contains("<string>/bin/d</string>"));
    assert!(plist.contains("<string>/etc/c.toml</string>"));
}

#[test]
fn startup_settings() {
    assert_eq!(relay_user_id("occitane.guilhem"), "@charradissa-relay:occitane.guilhem");
    assert_eq!(listen_address("8448"), "0.0.0.0:8448");
    assert!(wants_registration(&args(&["d", "--generate-registration"])));
    assert!(!wants_registration(&args(&["d"])));
    assert_eq!(or_default(None, "http://farga:7500"), "http://farga:7500");
    assert_eq!(config_or_env(None, Some("e".into()), "d"), "e");
    assert_eq!(config_or_env(Some("c".into()), Some("e".into()), "d"), "c");
    assert_eq!(config_or_env(None, None, "d"), "d");
}
