//! Approvals: the in-process queue of pending approvals, each resolved at most
//! once, and the records of the persistent queue kept in Farga's key-value store.

use vstd::prelude::*;
use crate::clock::{is_uuid_text, new_uuid, now_millis};
use crate::error::CharradissaError;
use crate::pairs::{
    distinct_keys, lemma_pairs_map, lemma_pairs_map_push, lemma_pairs_map_remove,
    lemma_pairs_map_replace, pairs_map,
};
use crate::text::{push_str, str_eq, string_from, trim_end_char, trim_end_char_exec};

verus! {

/// How a person answered an approval request.
#[derive(Debug, Clone, PartialEq, Eq)]
pub enum ApprovalOutcome {
    Approved,
    Rejected(String),
}

/// A pending approval: what is asked, when, and how to tell the waiting party
/// (`notify`).
pub struct PendingApproval<T> {
    pub id: String,
    pub category: String,
    pub description: String,
    pub params: serde_json::Value,
    /// Milliseconds since the Unix epoch.
    pub created_at: i64,
    pub notify: T,
}

/// What a [`PendingApproval`] holds.
pub struct PendingView<T> {
    pub category: Seq<char>,
    pub description: Seq<char>,
    pub params: serde_json::Value,
    pub created_at: i64,
    pub notify: T,
}

impl<T> View for PendingApproval<T> {
    type V = PendingView<T>;

    open spec fn view(&self) -> PendingView<T> {
        PendingView {
            category: self.category@,
            description: self.description@,
            params: self.params,
            created_at: self.created_at,
            notify: self.notify,
        }
    }
}

/// The approvals waiting for an answer, by id; `T` is how each waiting party
/// is told of the answer.
pub struct ApprovalQueue<T> {
    pending: Vec<(String, PendingApproval<T>)>,
    timeout_minutes: u64,
}

impl<T> View for ApprovalQueue<T> {
    type V = Map<Seq<char>, PendingView<T>>;

    closed spec fn view(&self) -> Map<Seq<char>, PendingView<T>> {
        pairs_map(self.pending@)
    }
}

/// Whether `v` holds the request `category`, `description`, `params` with the
/// waiting party `notify`.
pub open spec fn holds_request<T>(
    v: PendingView<T>,
    category: Seq<char>,
    description: Seq<char>,
    params: serde_json::Value,
    notify: T,
) -> bool {
    &&& v.category == category
    &&& v.description == description
    &&& v.params == params
    &&& v.notify == notify
}

impl<T> ApprovalQueue<T> {
    /// Ids occur once, and each entry's id is its key.
    pub closed spec fn wf(&self) -> bool {
        &&& distinct_keys(self.pending@)
        &&& forall|i: int|
            0 <= i < self.pending@.len() ==> (#[trigger] self.pending@[i]).1.id@
                == self.pending@[i].0@
    }

    pub closed spec fn timeout(&self) -> u64 {
        self.timeout_minutes
    }

    /// An empty queue whose approvals time out after `timeout_minutes`.
    pub fn new(timeout_minutes: u64) -> (q: Self)
        ensures
            q.wf(),
            q@ == Map::<Seq<char>, PendingView<T>>::empty(),
            q.timeout() == timeout_minutes,
    {
        ApprovalQueue { pending: Vec::new(), timeout_minutes }
    }

    /// Queues an approval of `description` under `category`, with `params`,
    /// under a fresh random id, which is returned; `notify`, the waiting party,
    /// is handed back with it when it is taken out.
    pub fn enqueue(
        &mut self,
        category: String,
        description: String,
        params: serde_json::Value,
        notify: T,
    ) -> (id: String)
        requires
            old(self).wf(),
        ensures
            final(self).wf(),
            is_uuid_text(id@),
            final(self)@ == old(self)@.insert(id@, final(self)@[id@]),
            holds_request(final(self)@[id@], category@, description@, params, notify),
            final(self).timeout() == old(self).timeout(),
    {
        let id = new_uuid();
        let ghost cat = category@;
        let ghost desc = description@;
        let ghost prm = params;
        let ghost ntf = notify;
        let entry = PendingApproval {
            id: string_from(id.as_str()),
            category,
            description,
            params,
            created_at: now_millis(),
            notify,
        };
        let ghost ev = entry@;
        let key = string_from(id.as_str());
        let ghost before = self.pending@;
        let mut i: usize = 0;
        while i < self.pending.len()
            invariant
                i <= self.pending@.len(),
                self.pending@ == before,
                before == old(self).pending@,
                old(self).wf(),
                key@ == id@,
                entry.id@ == id@,
                entry@ == ev,
                holds_request(ev, cat, desc, prm, ntf),
                cat == category@,
                desc == description@,
                prm == params,
                ntf == notify,
                is_uuid_text(id@),
                self.timeout_minutes == old(self).timeout_minutes,
                forall|j: int| 0 <= j < i ==> (#[trigger] self.pending@[j]).0@ != key@,
            decreases self.pending.len() - i,
        {
            if str_eq(self.pending[i].0.as_str(), key.as_str()) {
                let ghost e = (key, entry);
                proof {
                    lemma_pairs_map_replace(before, i as int, e);
                }
                self.pending.set(i, (key, entry));
                assert(self.pending@ =~= before.update(i as int, e));
                assert(e.1@ == ev);
                assert(pairs_map(self.pending@) == pairs_map(before).insert(id@, ev));
                assert forall|k: int| 0 <= k < self.pending@.len() implies (
                #[trigger] self.pending@[k]).1.id@ == self.pending@[k].0@ by {
                    if k != i {
                        assert(self.pending@[k] == before[k]);
                    }
                }
                return id;
            }
            i = i + 1;
        }
        proof {
            lemma_pairs_map_push(before, (key, entry));
        }
        self.pending.push((key, entry));
        assert forall|k: int| 0 <= k < self.pending@.len() implies (
        #[trigger] self.pending@[k]).1.id@ == self.pending@[k].0@ by {
            if k < before.len() {
                assert(self.pending@[k] == before[k]);
            }
        }
        id
    }

    /// Takes the approval `id` out of the queue, handing back its entry, with the
    /// waiting party and parameters it was queued with; an unknown id is an
    /// error.
    pub fn take(&mut self, id: &str) -> (r: Result<PendingApproval<T>, CharradissaError>)
        requires
            old(self).wf(),
        ensures
            final(self).wf(),
            final(self).timeout() == old(self).timeout(),
            match r {
                Ok(entry) => old(self)@.contains_key(id@) && entry.id@ == id@ && entry@ == old(
                    self,
                )@[id@] && final(self)@ == old(self)@.remove(id@),
                Err(e) => !old(self)@.contains_key(id@) && final(self)@ == old(self)@ && (e matches CharradissaError::Backend(m) && m@ == unknown_id_message(id@)),
            },
    {
        let ghost before = self.pending@;
        proof {
            lemma_pairs_map(before);
        }
        let mut i: usize = 0;
        while i < self.pending.len()
            invariant
                i <= self.pending@.len(),
                self.pending@ == before,
                before == old(self).pending@,
                old(self).wf(),
                self.timeout_minutes == old(self).timeout_minutes,
                pairs_map(before).dom().len() == before.len(),
                forall|j: int|
                    0 <= j < before.len() ==> pairs_map(before).contains_key(#[trigger] before[j].0@)
                        && pairs_map(before)[before[j].0@] == before[j].1@,
                forall|j: int| 0 <= j < i ==> (#[trigger] self.pending@[j]).0@ != id@,
            decreases self.pending.len() - i,
        {
            if str_eq(self.pending[i].0.as_str(), id) {
                proof {
                    lemma_pairs_map_remove(before, i as int);
                }
                assert(before[i as int].1.id@ == before[i as int].0@);
                let (_, entry) = self.pending.remove(i);
                proof {
                    assert(self.pending@ =~= before.remove(i as int));
                    assert forall|k: int| 0 <= k < self.pending@.len() implies (
                    #[trigger] self.pending@[k]).1.id@ == self.pending@[k].0@ by {
                        if k < i {
                            assert(self.pending@[k] == before[k]);
                        } else {
                            assert(self.pending@[k] == before[k + 1]);
                        }
                    }
                }
                return Ok(entry);
            }
            i = i + 1;
        }
        Err(CharradissaError::Backend(unknown_id_error_text(id)))
    }

    /// The pending approvals as (id, category, description), oldest first.
    pub fn list_pending(&self) -> (v: Vec<(&str, &str, &str)>)
        requires
            self.wf(),
        ensures
            v@.len() == self@.dom().len(),
            forall|i: int|
                0 <= i < v@.len() ==> self@.contains_key((#[trigger] v@[i]).0@) && self@[v@[i].0@].category
                    == v@[i].1@ && self@[v@[i].0@].description == v@[i].2@,
            forall|i: int, j: int| 0 <= i < j < v@.len() ==> (#[trigger] v@[i]).0@ != (#[trigger] v@[j]).0@,
    {
        proof {
            lemma_pairs_map(self.pending@);
        }
        let mut v: Vec<(&str, &str, &str)> = Vec::new();
        let mut i: usize = 0;
        while i < self.pending.len()
            invariant
                self.wf(),
                i <= self.pending@.len(),
                v@.len() == i,
                forall|j: int|
                    0 <= j < i ==> (#[trigger] v@[j]).0@ == self.pending@[j].0@ && v@[j].1@
                        == self.pending@[j].1.category@ && v@[j].2@
                        == self.pending@[j].1.description@,
            decreases self.pending.len() - i,
        {
            let e = &self.pending[i];
            v.push((e.0.as_str(), e.1.category.as_str(), e.1.description.as_str()));
            i = i + 1;
        }
        proof {
            lemma_pairs_map(self.pending@);
            assert forall|j: int| 0 <= j < v@.len() implies self@.contains_key((#[trigger] v@[j]).0@)
                && self@[v@[j].0@].category == v@[j].1@ && self@[v@[j].0@].description == v@[j].2@ by {
                assert(self.pending@[j].1@.category == self.pending@[j].1.category@);
            }
            assert forall|a: int, b: int| 0 <= a < b < v@.len() implies (#[trigger] v@[a]).0@ != (#[trigger] v@[b]).0@ by {
                assert(self.pending@[a].0@ != self.pending@[b].0@);
            }
        }
        v
    }

    /// Minutes after which an unanswered approval times out.
    pub fn timeout_minutes(&self) -> (m: u64)
        ensures
            m == self.timeout(),
    {
        self.timeout_minutes
    }
}

/// The sending half of a one-shot channel (`tokio::sync::oneshot::Sender`).
#[verifier::external_type_specification]
#[verifier::external_body]
#[verifier::reject_recursive_types(T)]
pub struct ExOneshotSender<T>(tokio::sync::oneshot::Sender<T>);

/// The receiving half of a one-shot channel (`tokio::sync::oneshot::Receiver`).
#[verifier::external_type_specification]
#[verifier::external_body]
#[verifier::reject_recursive_types(T)]
pub struct ExOneshotReceiver<T>(tokio::sync::oneshot::Receiver<T>);

/// The error of a receive whose sender went away
/// (`tokio::sync::oneshot::error::RecvError`).
#[verifier::external_type_specification]
#[verifier::external_body]
pub struct ExOneshotRecvError(tokio::sync::oneshot::error::RecvError);

/// `tokio::sync::oneshot::channel`: a fresh channel, as its sending and
/// receiving halves. Nothing is stated of them: which sender feeds which
/// receiver is not something a contract here can name.
#[verifier::external_body]
fn outcome_channel() -> (r: (
    tokio::sync::oneshot::Sender<ApprovalOutcome>,
    tokio::sync::oneshot::Receiver<ApprovalOutcome>,
)) {
    tokio::sync::oneshot::channel()
}

/// `tokio::sync::oneshot::Sender::send`: hands `outcome` to the channel's
/// receiver. When the receiver is gone, the outcome comes back unsent, as
/// tokio's documentation says; that the receiver then gets it is not stated.
#[verifier::external_body]
fn send_outcome(tx: tokio::sync::oneshot::Sender<ApprovalOutcome>, outcome: ApprovalOutcome) -> (r: Result<(), ApprovalOutcome>)
    ensures
        r matches Err(back) ==> back == outcome,
{
    tx.send(outcome)
}

impl ApprovalQueue<tokio::sync::oneshot::Sender<ApprovalOutcome>> {
    /// Queues an approval of `description` under `category`, with `params`, under
    /// a fresh random id; gives the id and the receiver on which the answer will
    /// arrive. The queue keeps the matching sender as the entry's waiting party.
    pub fn create_pending(
        &mut self,
        category: String,
        description: String,
        params: serde_json::Value,
    ) -> (r: (String, tokio::sync::oneshot::Receiver<ApprovalOutcome>))
        requires
            old(self).wf(),
        ensures
            final(self).wf(),
            is_uuid_text(r.0@),
            final(self)@ == old(self)@.insert(r.0@, final(self)@[r.0@]),
            final(self)@[r.0@].category == category@,
            final(self)@[r.0@].description == description@,
            final(self)@[r.0@].params == params,
            final(self).timeout() == old(self).timeout(),
    {
        let (tx, rx) = outcome_channel();
        let id = self.enqueue(category, description, params, tx);
        (id, rx)
    }

    /// Answers the approval `id` with `outcome`: the entry leaves the queue and
    /// the outcome is sent on the sender it was queued with, which goes to the
    /// receiver [`Self::create_pending`] gave for that id. An unknown id is an
    /// error and leaves the queue as it was.
    pub fn resolve(&mut self, id: &str, outcome: ApprovalOutcome) -> (r: Result<(), CharradissaError>)
        requires
            old(self).wf(),
        ensures
            final(self).wf(),
            final(self).timeout() == old(self).timeout(),
            match r {
                Ok(_) => old(self)@.contains_key(id@) && final(self)@ == old(self)@.remove(id@),
                Err(e) => !old(self)@.contains_key(id@) && final(self)@ == old(self)@ && (e matches CharradissaError::Backend(m) && m@ == unknown_id_message(id@)),
            },
    {
        let entry = match self.take(id) {
            Ok(entry) => entry,
            Err(e) => {
                return Err(e);
            },
        };
        let _ = send_outcome(entry.notify, outcome);
        Ok(())
    }
}

/// An approval is answered at most once, and by the waiting party it was queued
/// with: once `id` is queued with the request `v` (as [`ApprovalQueue::enqueue`]
/// leaves the queue), taking it out hands back `v`, waiting party and
/// parameters included, and takes it out, so that a second attempt finds no
/// such id; every other approval stays as it was.
pub proof fn law_approval_resolves_once<T>(
    before: Map<Seq<char>, PendingView<T>>,
    id: Seq<char>,
    v: PendingView<T>,
)
    ensures
        before.insert(id, v).contains_key(id),
        before.insert(id, v)[id] == v,
        !before.insert(id, v).remove(id).contains_key(id),
        forall|k: Seq<char>|
            k != id ==> (#[trigger] before.insert(id, v).remove(id).contains_key(k)) == before.contains_key(k)
                && (before.contains_key(k) ==> before.insert(id, v).remove(id)[k] == before[k]),
{
}

/// The message of an unknown approval id.
pub open spec fn unknown_id_message(id: Seq<char>) -> Seq<char> {
    "unknown approval id: "@ + id
}

fn unknown_id_error_text(id: &str) -> (s: String)
    ensures
        s@ == unknown_id_message(id@),
{
    let mut s = string_from("unknown approval id: ");
    push_str(&mut s, id);
    s
}

/// Where an approval stands.
#[derive(Debug, Clone, PartialEq, Eq)]
pub enum ApprovalStatus {
    Pending,
    Approved,
    Rejected(String),
}

/// A stored approval request.
#[derive(Debug, Clone)]
pub struct PendingApprovalRecord {
    pub id: String,
    /// The room of the agent waiting for the answer.
    pub room_id: String,
    pub category: String,
    pub description: String,
    pub params: serde_json::Value,
    /// Milliseconds since the Unix epoch.
    pub created_at: i64,
    pub status: ApprovalStatus,
}

/// The approval queue kept in Farga's key-value store, one entry per id under the
/// `approval` namespace.
pub struct PersistentApprovalQueue {
    farga_url: String,
}

impl PersistentApprovalQueue {
    pub closed spec fn base(&self) -> Seq<char> {
        self.farga_url@
    }

    pub fn new(farga_url: String) -> (q: Self)
        ensures
            q.base() == farga_url@,
    {
        PersistentApprovalQueue { farga_url }
    }

    /// The key-value URL of approval `id`.
    pub fn kv_url(&self, id: &str) -> (url: String)
        ensures
            url@ == trim_end_char(self.base(), '/') + "/kv/approval/"@ + id@,
    {
        let mut s = trim_end_char_exec(self.farga_url.as_str(), '/');
        push_str(&mut s, "/kv/approval/");
        push_str(&mut s, id);
        s
    }

    /// The key-value URL of the whole namespace.
    pub fn namespace_url(&self) -> (url: String)
        ensures
            url@ == trim_end_char(self.base(), '/') + "/kv/approval"@,
    {
        let mut s = trim_end_char_exec(self.farga_url.as_str(), '/');
        push_str(&mut s, "/kv/approval");
        s
    }

    /// A new pending record for a request from `room_id`, under a fresh random id
    /// and stamped with the current time.
    pub fn new_record(
        &self,
        room_id: &str,
        category: &str,
        description: &str,
        params: serde_json::Value,
    ) -> (r: PendingApprovalRecord)
        ensures
            is_uuid_text(r.id@),
            r.room_id@ == room_id@,
            r.category@ == category@,
            r.description@ == description@,
            r.params == params,
            r.status == ApprovalStatus::Pending,
    {
        PendingApprovalRecord {
            id: new_uuid(),
            room_id: string_from(room_id),
            category: string_from(category),
            description: string_from(description),
            params,
            created_at: now_millis(),
            status: ApprovalStatus::Pending,
        }
    }
}

/// A pending record for the request `id` from `room_id`, stamped with the
/// current time.
pub fn record_for(
    id: &str,
    room_id: &str,
    category: &str,
    description: &str,
    params: serde_json::Value,
) -> (r: PendingApprovalRecord)
    ensures
        r.id@ == id@,
        r.room_id@ == room_id@,
        r.category@ == category@,
        r.description@ == description@,
        r.params == params,
        r.status == ApprovalStatus::Pending,
{
    PendingApprovalRecord {
        id: string_from(id),
        room_id: string_from(room_id),
        category: string_from(category),
        description: string_from(description),
        params,
        created_at: now_millis(),
        status: ApprovalStatus::Pending,
    }
}

/// The record with its status changed to `status`.
pub fn with_status(record: PendingApprovalRecord, status: ApprovalStatus) -> (r: PendingApprovalRecord)
    ensures
        r.id == record.id,
        r.room_id == record.room_id,
        r.category == record.category,
        r.description == record.description,
        r.params == record.params,
        r.created_at == record.created_at,
        r.status == status,
{
    PendingApprovalRecord { status, ..record }
}

/// A status change of the stored request `id`: `found` is what the store gave
/// back for it. The record with its new status, to be written back, or the
/// unknown-id error when the store has none.
pub fn status_update(found: Option<PendingApprovalRecord>, id: &str, status: ApprovalStatus) -> (r:
    Result<PendingApprovalRecord, CharradissaError>)
    ensures
        match found {
            None => r matches Err(CharradissaError::Backend(m)) && m@ == unknown_id_message(id@),
            Some(rec) => r matches Ok(out) && out.id == rec.id && out.room_id == rec.room_id
                && out.category == rec.category && out.description == rec.description
                && out.params == rec.params && out.created_at == rec.created_at && out.status == status,
        },
{
    match found {
        None => Err(CharradissaError::Backend(unknown_id_error_text(id))),
        Some(rec) => Ok(with_status(rec, status)),
    }
}

/// The status a decision gives a record.
pub fn status_of(outcome: ApprovalOutcome) -> (s: ApprovalStatus)
    ensures
        outcome is Approved ==> s is Approved,
        outcome matches ApprovalOutcome::Rejected(r) ==> s == ApprovalStatus::Rejected(r),
{
    match outcome {
        ApprovalOutcome::Approved => ApprovalStatus::Approved,
        ApprovalOutcome::Rejected(r) => ApprovalStatus::Rejected(r),
    }
}

/// Whether a record still waits for an answer.
pub open spec fn waiting() -> spec_fn(PendingApprovalRecord) -> bool {
    |x: PendingApprovalRecord| x.status is Pending
}

/// The records still waiting for an answer, in order.
pub fn pending_records(records: Vec<PendingApprovalRecord>) -> (r: Vec<PendingApprovalRecord>)
    ensures
        r@ == records@.filter(waiting()),
{
    let mut r: Vec<PendingApprovalRecord> = Vec::new();
    let mut rest = records;
    let ghost all = rest@;
    let n = rest.len();
    let mut i: usize = 0;
    proof {
        reveal(Seq::filter);
        assert(all.take(0).filter(waiting()) =~= Seq::empty());
        assert(all.skip(0) =~= all);
    }
    while rest.len() > 0
        invariant
            n == all.len(),
            i + rest@.len() == n,
            rest@ == all.skip(i as int),
            r@ == all.take(i as int).filter(waiting()),
        decreases rest.len(),
    {
        let x = rest.remove(0);
        proof {
            assert(x == all[i as int]);
            assert(all.take(i + 1).drop_last() =~= all.take(i as int));
            assert(all.take(i + 1).last() == x);
            assert(rest@ =~= all.skip(i + 1));
            reveal(Seq::filter);
        }
        let keep = match x.status {
            ApprovalStatus::Pending => true,
            _ => false,
        };
        if keep {
            r.push(x);
        }
        i = i + 1;
    }
    assert(all.take(all.len() as int) =~= all);
    r
}

/// The error after a write of the store answered with a failure status
/// (`status`, as displayed); `update` tells a status change from a registration.
pub open spec fn put_failure_message(status: Seq<char>, update: bool) -> Seq<char> {
    if update {
        "farga approval PUT (update) returned "@ + status
    } else {
        "farga approval PUT returned "@ + status
    }
}

/// How a write of the store went: `Err` is the transport error, as displayed;
/// `Ok` tells whether the status was a success, and the status as displayed.
pub fn put_result(reply: &Result<(bool, String), String>, update: bool) -> (r: Result<(), CharradissaError>)
    ensures
        match *reply {
            Err(e) => r matches Err(CharradissaError::Backend(m)) && m@ == e@,
            Ok((ok, status)) => if ok {
                r is Ok
            } else {
                r matches Err(CharradissaError::Backend(m)) && m@ == put_failure_message(status@, update)
            },
        },
{
    match reply {
        Err(e) => Err(CharradissaError::Backend(string_from(e.as_str()))),
        Ok((ok, status)) => if *ok {
            Ok(())
        } else {
            let mut s = if update {
                string_from("farga approval PUT (update) returned ")
            } else {
                string_from("farga approval PUT returned ")
            };
            push_str(&mut s, status.as_str());
            Err(CharradissaError::Backend(s))
        },
    }
}

} // verus!
