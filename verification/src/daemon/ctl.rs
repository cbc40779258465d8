//! The daily workflow commands: which command the arguments ask for, the
//! morning briefing of pending approvals, the end-of-day wrap of resolved ones,
//! the watch of a room's queue, and the service files that start the daemon.
//! Reading the queue, polling and writing files happen outside the library.

use vstd::prelude::*;
use crate::approval::{ApprovalStatus, PendingApprovalRecord};
use crate::text::{
    contains_str, decimal, push_decimal, push_str, replace_all, replace_all_exec, str_eq,
    str_or_empty, string_from, views,
};

verus! {

/// The variable naming the queue file.
pub const QUEUE_FILE_ENV: &'static str = "CHARRADISSA_QUEUE_FILE";

/// The queue file when the variable is not set.
pub const DEFAULT_QUEUE_FILE: &'static str = "charradissa-queue.json";

/// The variable naming the daemon's base URL.
pub const BASE_URL_ENV: &'static str = "CHARRADISSA_BASE_URL";

/// The daemon watched when no base URL is set.
pub const DEFAULT_OBSERVE_BASE: &'static str = "http://localhost:8448";

/// The variable naming the daemon's configuration file.
pub const CONFIG_ENV: &'static str = "CHARRADISSA_CONFIG";

/// The configuration file when the variable is not set.
pub const DEFAULT_CONFIG_FILE: &'static str = "charradissa.toml";

/// Seconds between two polls of a watched room.
pub const POLL_INTERVAL_SECS: u64 = 5;

/// The usage line of the tool.
pub const USAGE: &'static str = "Usage: charradissa-ctl <morning|wrap|observe <room_id>|service install>";

/// The usage line of the `service` command.
pub const SERVICE_USAGE: &'static str = "Usage: charradissa-ctl service install";

/// A command of the workflow tool.
#[derive(Debug, Clone, PartialEq, Eq)]
pub enum CtlCommand {
    /// Brief the pending approvals.
    Morning,
    /// Count the approvals resolved today.
    Wrap,
    /// Watch a room's queue for new requests.
    Observe { room_id: String },
    /// Install the daemon as a user service.
    ServiceInstall,
    /// `service` without `install`: print its usage and fail.
    ServiceUsage,
    /// Anything else: print the usage and fail.
    Usage,
}

/// The `i`-th argument, if there is one.
pub open spec fn arg(args: Seq<String>, i: int) -> Option<Seq<char>> {
    if 0 <= i < args.len() {
        Some(args[i]@)
    } else {
        None
    }
}

/// Whether `c` is the command `args` ask for (the program's name first):
/// `morning`, `wrap`, `observe` with a room (`*` without one), `service
/// install`, else a usage error.
pub open spec fn command_of(args: Seq<String>, c: CtlCommand) -> bool {
    if arg(args, 1) == Some("morning"@) {
        c is Morning
    } else if arg(args, 1) == Some("wrap"@) {
        c is Wrap
    } else if arg(args, 1) == Some("observe"@) {
        c matches CtlCommand::Observe { room_id } && room_id@ == (match arg(args, 2) {
            Some(r) => r,
            None => "*"@,
        })
    } else if arg(args, 1) == Some("service"@) {
        if arg(args, 2) == Some("install"@) {
            c is ServiceInstall
        } else {
            c is ServiceUsage
        }
    } else {
        c is Usage
    }
}

fn arg_is(args: &Vec<String>, i: usize, word: &str) -> (b: bool)
    ensures
        b == (arg(args@, i as int) == Some(word@)),
{
    i < args.len() && str_eq(args[i].as_str(), word)
}

/// The command `args` ask for (see [`command_of`]).
pub fn parse_ctl_args(args: &Vec<String>) -> (c: CtlCommand)
    ensures
        command_of(args@, c),
{
    if arg_is(args, 1, "morning") {
        CtlCommand::Morning
    } else if arg_is(args, 1, "wrap") {
        CtlCommand::Wrap
    } else if arg_is(args, 1, "observe") {
        let room_id = if args.len() > 2 {
            string_from(args[2].as_str())
        } else {
            string_from("*")
        };
        CtlCommand::Observe { room_id }
    } else if arg_is(args, 1, "service") {
        if arg_is(args, 2, "install") {
            CtlCommand::ServiceInstall
        } else {
            CtlCommand::ServiceUsage
        }
    } else {
        CtlCommand::Usage
    }
}

/// The queue file: the variable's value, else the default file.
pub fn queue_file(env: Option<String>) -> (path: String)
    ensures
        path@ == (match env {
            Some(v) => v@,
            None => DEFAULT_QUEUE_FILE@,
        }),
{
    match env {
        Some(v) => v,
        None => string_from(DEFAULT_QUEUE_FILE),
    }
}

// ─────────────────────────────── morning ───────────────────────────────

/// The heading of the morning briefing.
pub const MORNING_HEADING: &'static str = "=== Morning Briefing ===";

/// A pending request as the briefing lists it.
pub open spec fn briefing_text(id: Seq<char>, room: Seq<char>, category: Seq<char>, description: Seq<char>) -> Seq<char> {
    "  ["@ + id + "] room="@ + room + " ["@ + category + "] "@ + description
}

/// A pending request as the briefing lists it (see [`briefing_text`]).
pub fn briefing_line(id: &str, room: &str, category: &str, description: &str) -> (s: String)
    ensures
        s@ == briefing_text(id@, room@, category@, description@),
{
    let mut s = string_from("  [");
    push_str(&mut s, id);
    push_str(&mut s, "] room=");
    push_str(&mut s, room);
    push_str(&mut s, " [");
    push_str(&mut s, category);
    push_str(&mut s, "] ");
    push_str(&mut s, description);
    s
}

/// The records as the briefing lists them.
pub open spec fn record_lines(records: Seq<PendingApprovalRecord>) -> Seq<Seq<char>> {
    records.map_values(
        |r: PendingApprovalRecord| briefing_text(r.id@, r.room_id@, r.category@, r.description@),
    )
}

/// The morning briefing of the pending records read from the queue file: the
/// heading, their count, a line each, and a note when there is none.
pub open spec fn morning_text(pending: Seq<PendingApprovalRecord>) -> Seq<Seq<char>> {
    seq![MORNING_HEADING@, "Pending approvals: "@ + decimal(pending.len())] + record_lines(pending)
        + if pending.len() == 0 {
        seq!["  (no pending approvals)"@]
    } else {
        Seq::empty()
    }
}

/// The morning briefing of the pending records read from the queue file (see
/// [`morning_text`]), line by line.
pub fn morning_lines(pending: &Vec<PendingApprovalRecord>) -> (lines: Vec<String>)
    ensures
        views(lines@) == morning_text(pending@),
{
    let mut lines: Vec<String> = Vec::new();
    lines.push(string_from(MORNING_HEADING));
    let mut count = string_from("Pending approvals: ");
    push_decimal(&mut count, pending.len() as u64);
    lines.push(count);
    let mut i: usize = 0;
    while i < pending.len()
        invariant
            i <= pending@.len(),
            lines@.len() == i + 2,
            lines@[0]@ == MORNING_HEADING@,
            lines@[1]@ == "Pending approvals: "@ + decimal(pending@.len()),
            forall|k: int|
                0 <= k < i ==> (#[trigger] lines@[k + 2])@ == record_lines(pending@)[k],
        decreases pending.len() - i,
    {
        let r = &pending[i];
        lines.push(
            briefing_line(r.id.as_str(), r.room_id.as_str(), r.category.as_str(), r.description.as_str()),
        );
        i = i + 1;
    }
    if pending.len() == 0 {
        lines.push(string_from("  (no pending approvals)"));
    }
    assert(views(lines@) =~= morning_text(pending@)) by {
        let want = morning_text(pending@);
        assert forall|k: int| 0 <= k < want.len() implies views(lines@)[k] == want[k] by {
            if 2 <= k < pending@.len() + 2 {
                assert(lines@[(k - 2) + 2]@ == record_lines(pending@)[k - 2]);
            }
        }
    }
    lines
}

/// A pending request as the daemon's API lists it; each field may be missing.
#[derive(Debug, Clone)]
pub struct ApiPendingItem {
    pub id: Option<String>,
    pub room_id: Option<String>,
    pub category: Option<String>,
    pub description: Option<String>,
}

/// The text of an optional field, `?` when missing.
pub open spec fn or_mark(o: Option<String>) -> Seq<char> {
    match o {
        Some(s) => s@,
        None => "?"@,
    }
}

fn or_mark_exec(o: &Option<String>) -> (s: String)
    ensures
        s@ == or_mark(*o),
{
    match o {
        Some(v) => string_from(v.as_str()),
        None => string_from("?"),
    }
}

/// The items as the briefing from the API lists them.
pub open spec fn item_lines(items: Seq<ApiPendingItem>) -> Seq<Seq<char>> {
    items.map_values(
        |it: ApiPendingItem|
            briefing_text(or_mark(it.id), or_mark(it.room_id), or_mark(it.category), or_mark(it.description)),
    )
}

/// The morning briefing from the daemon's API: the heading, the count it gives
/// (0 when missing), and a line per pending item.
pub open spec fn api_morning_text(count: Option<u64>, items: Seq<ApiPendingItem>) -> Seq<Seq<char>> {
    seq![
        MORNING_HEADING@,
        "Pending approvals (from API): "@ + decimal(
            match count {
                Some(n) => n as nat,
                None => 0,
            },
        ),
    ] + item_lines(items)
}

/// The morning briefing from the daemon's API (see [`api_morning_text`]).
pub fn api_morning_lines(count: Option<u64>, items: &Vec<ApiPendingItem>) -> (lines: Vec<String>)
    ensures
        views(lines@) == api_morning_text(count, items@),
{
    let mut lines: Vec<String> = Vec::new();
    lines.push(string_from(MORNING_HEADING));
    let mut c = string_from("Pending approvals (from API): ");
    push_decimal(
        &mut c,
        match count {
            Some(n) => n,
            None => 0,
        },
    );
    lines.push(c);
    let mut i: usize = 0;
    while i < items.len()
        invariant
            i <= items@.len(),
            lines@.len() == i + 2,
            views(lines@).take(2) == api_morning_text(count, items@).take(2),
            forall|k: int| 0 <= k < i ==> (#[trigger] lines@[k + 2])@ == item_lines(items@)[k],
        decreases items.len() - i,
    {
        let it = &items[i];
        let id = or_mark_exec(&it.id);
        let room = or_mark_exec(&it.room_id);
        let cat = or_mark_exec(&it.category);
        let desc = or_mark_exec(&it.description);
        lines.push(briefing_line(id.as_str(), room.as_str(), cat.as_str(), desc.as_str()));
        proof {
            assert(views(lines@).take(2) =~= views(lines@).drop_last().take(2));
        }
        i = i + 1;
    }
    assert(views(lines@) =~= api_morning_text(count, items@)) by {
        let want = api_morning_text(count, items@);
        assert forall|k: int| 0 <= k < want.len() implies views(lines@)[k] == want[k] by {
            if k < 2 {
                assert(views(lines@).take(2)[k] == want.take(2)[k]);
            } else {
                assert(lines@[(k - 2) + 2]@ == item_lines(items@)[k - 2]);
            }
        }
    }
    lines
}

// ─────────────────────────────── wrap ───────────────────────────────

/// Milliseconds in a day.
pub const DAY_MILLIS: i64 = 86_400_000;

/// The UTC day of an instant given in milliseconds since the Unix epoch, as a
/// count of days since the epoch (negative before it).
pub open spec fn utc_day(ms: i64) -> int {
    ms as int / DAY_MILLIS as int
}

/// The UTC day of an instant (see [`utc_day`]).
pub fn utc_day_of(ms: i64) -> (d: i64)
    ensures
        d == utc_day(ms),
{
    assert(i64::MIN <= ms / DAY_MILLIS <= i64::MAX) by (nonlinear_arith)
        requires
            DAY_MILLIS == 86_400_000,
    ;
    match ms.checked_div_euclid(DAY_MILLIS) {
        Some(d) => d,
        None => 0,
    }
}

/// Whether a record was resolved (approved or rejected) and created on `day`.
pub open spec fn resolved_on(r: PendingApprovalRecord, day: int) -> bool {
    utc_day(r.created_at) == day && !(r.status is Pending)
}

/// The number of records created on `day` and then resolved, and of those the
/// approved and the rejected ones.
pub open spec fn resolved_counts(records: Seq<PendingApprovalRecord>, day: int) -> (nat, nat, nat)
    decreases records.len(),
{
    if records.len() == 0 {
        (0, 0, 0)
    } else {
        let (t, a, r) = resolved_counts(records.drop_last(), day);
        let last = records.last();
        if resolved_on(last, day) {
            if last.status is Approved {
                (t + 1, a + 1, r)
            } else {
                (t + 1, a, r + 1)
            }
        } else {
            (t, a, r)
        }
    }
}

/// The end-of-day wrap: the heading, then how many approvals created today
/// (the UTC day of `now_ms`) were resolved, approved and rejected.
pub open spec fn wrap_text(records: Seq<PendingApprovalRecord>, now_ms: i64) -> Seq<Seq<char>> {
    let (t, a, r) = resolved_counts(records, utc_day(now_ms));
    seq![
        "=== End-of-Day Wrap ==="@,
        "Approvals resolved today: "@ + decimal(t) + " total ("@ + decimal(a) + " approved, "@
            + decimal(r) + " rejected)"@,
    ]
}

/// The end-of-day wrap of the queue's records at `now_ms` (see [`wrap_text`]).
pub fn wrap_lines(records: &Vec<PendingApprovalRecord>, now_ms: i64) -> (lines: Vec<String>)
    ensures
        views(lines@) == wrap_text(records@, now_ms),
{
    let today = utc_day_of(now_ms);
    let mut t: u64 = 0;
    let mut a: u64 = 0;
    let mut r: u64 = 0;
    let mut i: usize = 0;
    while i < records.len()
        invariant
            i <= records@.len(),
            today == utc_day(now_ms),
            (t as nat, a as nat, r as nat) == resolved_counts(records@.take(i as int), today as int),
            t <= i,
            a + r == t,
        decreases records.len() - i,
    {
        assert(records@.take(i + 1).drop_last() =~= records@.take(i as int));
        let rec = &records[i];
        let day = utc_day_of(rec.created_at);
        if day == today {
            match rec.status {
                ApprovalStatus::Approved => {
                    t = t + 1;
                    a = a + 1;
                },
                ApprovalStatus::Rejected(_) => {
                    t = t + 1;
                    r = r + 1;
                },
                ApprovalStatus::Pending => {},
            }
        }
        i = i + 1;
    }
    assert(records@.take(records@.len() as int) =~= records@);
    let mut lines: Vec<String> = Vec::new();
    lines.push(string_from("=== End-of-Day Wrap ==="));
    let mut s = string_from("Approvals resolved today: ");
    push_decimal(&mut s, t);
    push_str(&mut s, " total (");
    push_decimal(&mut s, a);
    push_str(&mut s, " approved, ");
    push_decimal(&mut s, r);
    push_str(&mut s, " rejected)");
    lines.push(s);
    assert(views(lines@) =~= wrap_text(records@, now_ms));
    lines
}

// ─────────────────────────────── observe ───────────────────────────────

/// The queue URL watched for `room`.
pub open spec fn observe_url_text(base: Option<String>, room: Seq<char>) -> Seq<char> {
    (match base {
        Some(b) => b@,
        None => DEFAULT_OBSERVE_BASE@,
    }) + "/api/queue?room="@ + room
}

/// The queue URL watched for `room`: on the configured daemon, else on the
/// local one.
pub fn observe_url(base: &Option<String>, room: &str) -> (url: String)
    ensures
        url@ == observe_url_text(*base, room@),
{
    let mut url = match base {
        Some(b) => string_from(b.as_str()),
        None => string_from(DEFAULT_OBSERVE_BASE),
    };
    push_str(&mut url, "/api/queue?room=");
    push_str(&mut url, room);
    url
}

/// A newly seen request as the watch prints it.
pub open spec fn new_item_text(it: ApiPendingItem) -> Seq<char> {
    "  NEW ["@ + str_or_empty(it.id) + "] ["@ + or_mark(it.category) + "] "@ + or_mark(
        it.description,
    )
}

/// What a poll brings: the ids seen so far after `items`, and a line for each
/// item with an id not seen before, in order; an item without an id is
/// skipped.
pub open spec fn observe_fold(seen: Seq<Seq<char>>, items: Seq<ApiPendingItem>) -> (
    Seq<Seq<char>>,
    Seq<Seq<char>>,
)
    decreases items.len(),
{
    if items.len() == 0 {
        (seen, Seq::empty())
    } else {
        let (s0, l0) = observe_fold(seen, items.drop_last());
        let it = items.last();
        let id = str_or_empty(it.id);
        if id.len() > 0 && !s0.contains(id) {
            (s0.push(id), l0.push(new_item_text(it)))
        } else {
            (s0, l0)
        }
    }
}

/// Takes in a poll's items (see [`observe_fold`]): records the new ids in
/// `seen` and gives the lines to print.
pub fn observe_poll(seen: &mut Vec<String>, items: &Vec<ApiPendingItem>) -> (lines: Vec<String>)
    ensures
        views(final(seen)@) == observe_fold(views(old(seen)@), items@).0,
        views(lines@) == observe_fold(views(old(seen)@), items@).1,
{
    let ghost start = views(seen@);
    let mut lines: Vec<String> = Vec::new();
    let mut i: usize = 0;
    while i < items.len()
        invariant
            i <= items@.len(),
            views(seen@) == observe_fold(start, items@.take(i as int)).0,
            views(lines@) == observe_fold(start, items@.take(i as int)).1,
        decreases items.len() - i,
    {
        assert(items@.take(i + 1).drop_last() =~= items@.take(i as int));
        let it = &items[i];
        let id = crate::text::or_empty_string(&it.id);
        if !id.as_str().is_empty() && !contains_str(seen, id.as_str()) {
            let mut line = string_from("  NEW [");
            push_str(&mut line, id.as_str());
            push_str(&mut line, "] [");
            let cat = or_mark_exec(&it.category);
            push_str(&mut line, cat.as_str());
            push_str(&mut line, "] ");
            let desc = or_mark_exec(&it.description);
            push_str(&mut line, desc.as_str());
            lines.push(line);
            seen.push(id);
            assert(views(seen@) =~= observe_fold(start, items@.take(i as int)).0.push(
                str_or_empty(it.id),
            ));
            assert(views(lines@) =~= observe_fold(start, items@.take(i as int)).1.push(
                new_item_text(*it),
            ));
        }
        i = i + 1;
    }
    assert(items@.take(items@.len() as int) =~= items@);
    lines
}

// ─────────────────────────────── service ───────────────────────────────

/// The daemon's binary next to this tool: the tool's path with its name
/// replaced by the daemon's.
pub open spec fn daemon_binary_text(tool_path: Seq<char>) -> Seq<char> {
    replace_all(tool_path, "charradissa-ctl"@, "charradissa-daemon"@)
}

/// The daemon's binary next to this tool (see [`daemon_binary_text`]).
pub fn daemon_binary(tool_path: &str) -> (b: String)
    ensures
        b@ == daemon_binary_text(tool_path@),
{
    proof {
        reveal_strlit("charradissa-ctl");
    }
    replace_all_exec(tool_path, "charradissa-ctl", "charradissa-daemon")
}

/// The configuration file the service starts with: the variable's value, else
/// the default file.
pub fn service_config(env: Option<String>) -> (path: String)
    ensures
        path@ == (match env {
            Some(v) => v@,
            None => DEFAULT_CONFIG_FILE@,
        }),
{
    match env {
        Some(v) => v,
        None => string_from(DEFAULT_CONFIG_FILE),
    }
}

/// The directory of the user's systemd units, under `home`.
pub open spec fn systemd_dir_text(home: Seq<char>) -> Seq<char> {
    home + "/.config/systemd/user"@
}

/// The systemd user unit that starts `binary` with `config`.
pub open spec fn systemd_unit_text(binary: Seq<char>, config: Seq<char>) -> Seq<char> {
    "[Unit]\nDescription=Charradissa Matrix Agent Daemon\nAfter=network.target\n\n[Service]\nExecStart="@
        + binary + "\nEnvironment=CHARRADISSA_CONFIG="@ + config
        + "\nRestart=on-failure\n\n[Install]\nWantedBy=default.target\n"@
}

/// The systemd user unit that starts `binary` with `config` (see
/// [`systemd_unit_text`]).
pub fn systemd_unit(binary: &str, config: &str) -> (unit: String)
    ensures
        unit@ == systemd_unit_text(binary@, config@),
{
    let mut s = string_from(
        "[Unit]\nDescription=Charradissa Matrix Agent Daemon\nAfter=network.target\n\n[Service]\nExecStart=",
    );
    push_str(&mut s, binary);
    push_str(&mut s, "\nEnvironment=CHARRADISSA_CONFIG=");
    push_str(&mut s, config);
    push_str(&mut s, "\nRestart=on-failure\n\n[Install]\nWantedBy=default.target\n");
    s
}

/// The directory of the user's launch agents, under `home`.
pub open spec fn launchd_dir_text(home: Seq<char>) -> Seq<char> {
    home + "/Library/LaunchAgents"@
}

/// The launchd property list that starts `binary` with `config` at login.
pub open spec fn launchd_plist_text(binary: Seq<char>, config: Seq<char>) -> Seq<char> {
    "<?xml version=\"1.0\" encoding=\"UTF-8\"?>
<!DOCTYPE plist PUBLIC \"-//Apple//DTD PLIST 1.0//EN\" \"http://www.apple.com/DTDs/PropertyList-1.0.dtd\">
<plist version=\"1.0\">
<dict>
    <key>Label</key>
    <string>com.bosa.charradissa</string>
    <key>ProgramArguments</key>
    <array>
        <string>"@ + binary + "</string>
    </array>
    <key>RunAtLoad</key>
    <true/>
    <key>EnvironmentVariables</key>
    <dict>
        <key>CHARRADISSA_CONFIG</key>
        <string>"@ + config + "</string>
    </dict>
</dict>
</plist>
"@
}

/// The launchd property list that starts `binary` with `config` (see
/// [`launchd_plist_text`]).
pub fn launchd_plist(binary: &str, config: &str) -> (plist: String)
    ensures
        plist@ == launchd_plist_text(binary@, config@),
{
    let mut s = string_from(
        "<?xml version=\"1.0\" encoding=\"UTF-8\"?>
<!DOCTYPE plist PUBLIC \"-//Apple//DTD PLIST 1.0//EN\" \"http://www.apple.com/DTDs/PropertyList-1.0.dtd\">
<plist version=\"1.0\">
<dict>
    <key>Label</key>
    <string>com.bosa.charradissa</string>
    <key>ProgramArguments</key>
    <array>
        <string>",
    );
    push_str(&mut s, binary);
    push_str(
        &mut s,
        "</string>
    </array>
    <key>RunAtLoad</key>
    <true/>
    <key>EnvironmentVariables</key>
    <dict>
        <key>CHARRADISSA_CONFIG</key>
        <string>",
    );
    push_str(&mut s, config);
    push_str(&mut s, "</string>
    </dict>
</dict>
</plist>
");
    s
}

} // verus!
