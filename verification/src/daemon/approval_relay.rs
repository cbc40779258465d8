//! Text of the approval relay: the notice posted for a new approval request, the
//! `/approve` and `/reject` replies it reads back, and the acknowledgement it posts.

use vstd::prelude::*;
use crate::text::{
    chars_of, is_ws, lemma_find_char, lemma_trim_unchanged, push_str, splitn, splitn_exec,
    starts_with, starts_with_exec, string_from, string_of_range, trim, trim_bounds,
};

verus! {

/// The reason recorded when `/reject <id>` gives none.
pub open spec fn default_reject_reason() -> Seq<char> {
    "rejected by operator"@
}

/// What a resolution reply says: the approval id, then `None` to approve or
/// `Some(reason)` to reject.
pub open spec fn resolution_of(content: Seq<char>) -> Option<(Seq<char>, Option<Seq<char>>)> {
    let c = trim(content);
    if starts_with(c, "/approve "@) {
        Some((trim(c.skip(9)), None))
    } else if starts_with(c, "/reject "@) {
        let parts = splitn(c.skip(8), 2, ' ');
        let reason = if parts.len() > 1 {
            trim(parts[1])
        } else {
            Seq::empty()
        };
        Some(
            (
                trim(parts[0]),
                Some(
                    if reason.len() == 0 {
                        default_reject_reason()
                    } else {
                        reason
                    },
                ),
            ),
        )
    } else {
        None
    }
}

/// The texts of a parsed resolution.
pub open spec fn resolution_view(r: Option<(String, Option<String>)>) -> Option<
    (Seq<char>, Option<Seq<char>>),
> {
    match r {
        None => None,
        Some((id, None)) => Some((id@, None)),
        Some((id, Some(reason))) => Some((id@, Some(reason@))),
    }
}

/// Parses `/approve <id>` or `/reject <id> [reason]` into the id and, for a
/// rejection, its reason. A missing or blank reason becomes `rejected by operator`.
pub fn parse_resolution_command(content: &str) -> (r: Option<(String, Option<String>)>)
    ensures
        resolution_view(r) == resolution_of(content@),
{
    let v = chars_of(content);
    let (a, b) = trim_bounds(&v, 0, v.len());
    proof {
        assert(v@.subrange(0, v.len() as int) =~= v@);
    }
    let ghost c = v@.subrange(a as int, b as int);
    let approve = chars_of("/approve ");
    let reject = chars_of("/reject ");
    proof {
        reveal_strlit("/approve ");
        reveal_strlit("/reject ");
    }
    if starts_with_exec(&v, a, b, &approve) {
        let (i0, i1) = trim_bounds(&v, a + 9, b);
        assert(c.skip(9) =~= v@.subrange(a + 9, b as int));
        Some((string_of_range(&v, i0, i1), None))
    } else if starts_with_exec(&v, a, b, &reject) {
        assert(c.skip(8) =~= v@.subrange(a + 8, b as int));
        let parts = splitn_exec(&v, a + 8, b, 2, ' ');
        let (p0, p1) = parts[0];
        let (i0, i1) = trim_bounds(&v, p0, p1);
        let id = string_of_range(&v, i0, i1);
        let reason = if parts.len() > 1 {
            let (q0, q1) = parts[1];
            let (r0, r1) = trim_bounds(&v, q0, q1);
            if r1 > r0 {
                string_of_range(&v, r0, r1)
            } else {
                string_from("rejected by operator")
            }
        } else {
            proof {
                reveal_strlit("");
            }
            string_from("rejected by operator")
        };
        Some((id, Some(reason)))
    } else {
        None
    }
}

/// The acknowledgement text for a resolved approval.
pub open spec fn ack_text(id: Seq<char>, reason: Option<Seq<char>>) -> Seq<char> {
    match reason {
        None => "✅ `"@ + id + "` approved."@,
        Some(r) => "❌ `"@ + id + "` rejected: "@ + r,
    }
}

/// The acknowledgement posted back into the approval room once `id` is resolved:
/// `None` means approved, `Some(reason)` rejected.
pub fn format_ack(id: &str, reason: &Option<String>) -> (s: String)
    ensures
        s@ == ack_text(
            id@,
            match reason {
                Some(r) => Some(r@),
                None => None,
            },
        ),
{
    let mut s = String::new();
    match reason {
        None => {
            push_str(&mut s, "✅ `");
            push_str(&mut s, id);
            push_str(&mut s, "` approved.");
        },
        Some(r) => {
            push_str(&mut s, "❌ `");
            push_str(&mut s, id);
            push_str(&mut s, "` rejected: ");
            push_str(&mut s, r.as_str());
        },
    }
    assert(s@ =~= ack_text(
        id@,
        match reason {
            Some(r) => Some(r@),
            None => None,
        },
    ));
    s
}

/// The notice posted into the approval room for a new request.
pub open spec fn request_notice_text(
    component: Seq<char>,
    category: Seq<char>,
    description: Seq<char>,
    id: Seq<char>,
) -> Seq<char> {
    "⏳ **["@ + component + "/"@ + category + "]** "@ + description + "\n   ID: `"@ + id
        + "`\n   Reply: `/approve "@ + id + "` or `/reject "@ + id + " <reason>`"@
}

/// The notice posted into the approval room when `component` asks for approval of
/// `description` under `category`, with the replies that resolve it.
pub fn request_notice(component: &str, category: &str, description: &str, id: &str) -> (s:
    String)
    ensures
        s@ == request_notice_text(component@, category@, description@, id@),
{
    let mut s = String::new();
    push_str(&mut s, "⏳ **[");
    push_str(&mut s, component);
    push_str(&mut s, "/");
    push_str(&mut s, category);
    push_str(&mut s, "]** ");
    push_str(&mut s, description);
    push_str(&mut s, "\n   ID: `");
    push_str(&mut s, id);
    push_str(&mut s, "`\n   Reply: `/approve ");
    push_str(&mut s, id);
    push_str(&mut s, "` or `/reject ");
    push_str(&mut s, id);
    push_str(&mut s, " <reason>`");
    assert(s@ =~= request_notice_text(component@, category@, description@, id@));
    s
}

} // verus!

verus! {

/// A request for approval as published by a requester.
#[derive(Debug, Clone)]
pub struct ApprovalRequest {
    pub id: String,
    pub component: String,
    pub category: String,
    pub description: String,
    pub params: serde_json::Value,
}

/// The outcome published on a request's status subject.
#[derive(Debug, Clone)]
pub struct StatusPayload {
    /// `approved` or `rejected`.
    pub status: String,
    /// The rejection reason; absent for an approval.
    pub reason: Option<String>,
}

/// A resolution to act on: the id and, for a rejection, its reason.
pub open spec fn resolution_to_act_on(content: Seq<char>) -> Option<(Seq<char>, Option<Seq<char>>)> {
    match resolution_of(content) {
        Some((id, reason)) => if id.len() > 0 {
            Some((id, reason))
        } else {
            None
        },
        None => None,
    }
}

/// The resolution a reply in the approval room asks for, if it names an id.
pub fn resolution_to_act_on_exec(content: &str) -> (r: Option<(String, Option<String>)>)
    ensures
        resolution_view(r) == resolution_to_act_on(content@),
{
    match parse_resolution_command(content) {
        Some((id, reason)) => if id.as_str().is_empty() {
            None
        } else {
            Some((id, reason))
        },
        None => None,
    }
}

/// The status payload of a resolution: `approved` without a reason, `rejected`
/// with it.
pub fn status_payload(reason: &Option<String>) -> (p: StatusPayload)
    ensures
        p.status@ == (if reason is Some {
            "rejected"@
        } else {
            "approved"@
        }),
        match (reason, p.reason) {
            (Some(a), Some(b)) => a@ == b@,
            (None, None) => true,
            _ => false,
        },
{
    match reason {
        Some(r) => StatusPayload { status: string_from("rejected"), reason: Some(string_from(r.as_str())) },
        None => StatusPayload { status: string_from("approved"), reason: None },
    }
}

/// The notice posted for a published request (see [`request_notice_text`]).
pub fn request_notice_for(req: &ApprovalRequest) -> (s: String)
    ensures
        s@ == request_notice_text(req.component@, req.category@, req.description@, req.id@),
{
    request_notice(req.component.as_str(), req.category.as_str(), req.description.as_str(), req.id.as_str())
}

/// The durable consumer name of the request subscription, shared by every
/// replica.
pub const REQUEST_CONSUMER: &'static str = "charradissa-approval-request";

/// The chat channel of the approval room.
pub const APPROVAL_CHANNEL: &'static str = "approval";

/// The chat adapter replies go through.
pub const CHAT_ADAPTER: &'static str = "matrix";

/// `/approve <id>` is read back as the approval of `id`, for any id without
/// whitespace, and is acknowledged as approved.
pub proof fn law_approve_read_back(id: Seq<char>)
    requires
        id.len() > 0,
        forall|j: int| 0 <= j < id.len() ==> !is_ws(#[trigger] id[j]),
    ensures
        resolution_of("/approve "@ + id) == Some((id, None::<Seq<char>>)),
        ack_text(id, None) == "✅ `"@ + id + "` approved."@,
{
    reveal_strlit("/approve ");
    let c = "/approve "@ + id;
    assert(!is_ws(c[0]));
    assert(c.last() == id.last());
    lemma_trim_unchanged(c);
    lemma_trim_unchanged(id);
    assert(c.subrange(0, 9) =~= "/approve "@);
    assert(c.skip(9) =~= id);
}

/// `/reject <id> <reason>` is read back as the rejection of `id` for `reason`,
/// for any id without whitespace and any reason that neither begins nor ends
/// with whitespace, and the acknowledgement names both.
pub proof fn law_reject_read_back(id: Seq<char>, reason: Seq<char>)
    requires
        id.len() > 0,
        forall|j: int| 0 <= j < id.len() ==> !is_ws(#[trigger] id[j]),
        reason.len() > 0,
        !is_ws(reason[0]),
        !is_ws(reason.last()),
    ensures
        resolution_of("/reject "@ + id + " "@ + reason) == Some((id, Some(reason))),
        ack_text(id, Some(reason)) == "❌ `"@ + id + "` rejected: "@ + reason,
{
    reveal_strlit("/reject ");
    reveal_strlit(" ");
    reveal_strlit("/approve ");
    let c = "/reject "@ + id + " "@ + reason;
    assert(!is_ws(c[0]));
    assert(c.last() == reason.last());
    lemma_trim_unchanged(c);
    assert(!starts_with(c, "/approve "@)) by {
        assert(c[1] == 'r');
        assert("/approve "@[1] == 'a');
        if starts_with(c, "/approve "@) {
            assert(c.subrange(0, 9)[1] == c[1]);
        }
    }
    assert(c.subrange(0, 8) =~= "/reject "@);
    let rest = c.skip(8);
    assert(rest =~= id + " "@ + reason);
    assert forall|j: int| 0 <= j < id.len() implies rest[j] != ' ' by {
        assert(rest[j] == id[j]);
        assert(is_ws(' '));
    }
    lemma_find_char(rest, ' ', id.len() as int);
    assert(rest.take(id.len() as int) =~= id);
    assert(rest.skip(id.len() as int + 1) =~= reason);
    assert(splitn(reason, 1, ' ') == seq![reason]);
    let parts = splitn(rest, 2, ' ');
    assert(parts =~= seq![id, reason]);
    lemma_trim_unchanged(id);
    lemma_trim_unchanged(reason);
}

} // verus!
