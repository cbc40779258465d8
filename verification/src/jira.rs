//! The Jira task tracker: where issues are created, how requests authenticate,
//! and how Jira's answer is read. The HTTP exchange runs outside the library.

use vstd::prelude::*;
use base64::Engine;
use crate::error::CharradissaError;
use crate::text::{push_str, string_from};
use crate::task::TaskManager;
use crate::types::{Assignee, ProjectId, Task, TaskId, TaskStatus};

verus! {

/// The character of the 6-bit value `x` in the standard base64 alphabet
/// (RFC 4648: `A`–`Z`, `a`–`z`, `0`–`9`, `+`, `/`).
pub open spec fn base64_digit(x: int) -> char {
    if x < 26 {
        (65 + x) as char
    } else if x < 52 {
        (97 + x - 26) as char
    } else if x < 62 {
        (48 + x - 52) as char
    } else if x == 62 {
        '+'
    } else {
        '/'
    }
}

/// The base64 text of `bytes` in the standard alphabet, padded with `=` (RFC
/// 4648): each group of three bytes becomes four digits of six bits each; a
/// final group of one or two bytes is padded to four characters.
pub open spec fn base64_standard(bytes: Seq<u8>) -> Seq<char>
    decreases bytes.len(),
{
    if bytes.len() == 0 {
        Seq::empty()
    } else if bytes.len() == 1 {
        let b0 = bytes[0] as int;
        seq![base64_digit(b0 / 4), base64_digit((b0 % 4) * 16), '=', '=']
    } else if bytes.len() == 2 {
        let b0 = bytes[0] as int;
        let b1 = bytes[1] as int;
        seq![
            base64_digit(b0 / 4),
            base64_digit((b0 % 4) * 16 + b1 / 16),
            base64_digit((b1 % 16) * 4),
            '=',
        ]
    } else {
        let b0 = bytes[0] as int;
        let b1 = bytes[1] as int;
        let b2 = bytes[2] as int;
        seq![
            base64_digit(b0 / 4),
            base64_digit((b0 % 4) * 16 + b1 / 16),
            base64_digit((b1 % 16) * 4 + b2 / 64),
            base64_digit(b2 % 64),
        ] + base64_standard(bytes.skip(3))
    }
}

/// `base64::engine::general_purpose::STANDARD.encode`: the base64 text of
/// `bytes` in the standard alphabet, with padding (see [`base64_standard`]).
/// The engine panics when the encoded length overflows `usize`; `requires`
/// leaves such inputs out.
#[verifier::external_body]
fn base64_encode(bytes: &[u8]) -> (text: String)
    requires
        bytes@.len() <= usize::MAX / 2,
    ensures
        text@ == base64_standard(bytes@),
{
    base64::engine::general_purpose::STANDARD.encode(bytes)
}

/// The error when Jira's answer names no issue.
pub const MISSING_ID: &'static str = "no id in Jira response";

/// The error of a task lookup, which this tracker does not offer.
pub const GET_TASK_UNSUPPORTED: &'static str = "get_task: not implemented";

/// A Jira project's tracker, reached at `base_url` as `email` with `api_token`.
pub struct JiraTaskManager {
    pub base_url: String,
    pub project_key: String,
    pub api_token: String,
    pub email: String,
}

/// The UTF-8 bytes of `t`.
pub open spec fn utf8(t: Seq<char>) -> Seq<u8> {
    vstd::utf8::encode_utf8(t)
}

impl JiraTaskManager {
    pub fn new(base_url: String, project_key: String, api_token: String, email: String) -> (m: Self)
        ensures
            m.base_url == base_url,
            m.project_key == project_key,
            m.api_token == api_token,
            m.email == email,
    {
        JiraTaskManager { base_url, project_key, api_token, email }
    }

    /// The credentials sent with each request: `email:api_token`.
    pub open spec fn credentials(&self) -> Seq<char> {
        self.email@ + ":"@ + self.api_token@
    }

    /// The `Authorization` header of each request: `Basic` and the base64 of the
    /// credentials' UTF-8 bytes.
    pub fn auth(&self) -> (h: String)
        requires
            utf8(self.credentials()).len() <= usize::MAX / 2,
        ensures
            h@ == "Basic "@ + base64_standard(utf8(self.credentials())),
    {
        let mut creds = string_from(self.email.as_str());
        push_str(&mut creds, ":");
        push_str(&mut creds, self.api_token.as_str());
        let encoded = base64_encode(creds.as_str().as_bytes());
        let mut h = string_from("Basic ");
        push_str(&mut h, encoded.as_str());
        h
    }

    /// Where issues are created.
    pub fn issue_url(&self) -> (url: String)
        ensures
            url@ == self.base_url@ + "/rest/api/3/issue"@,
    {
        let mut url = string_from(self.base_url.as_str());
        push_str(&mut url, "/rest/api/3/issue");
        url
    }
}

impl TaskManager for JiraTaskManager {
    /// Assignments are not sent to Jira: accepted as they are.
    fn assign_task(&self, task: &TaskId, assignee: &Assignee) -> (r: Result<(), CharradissaError>)
        ensures
            r is Ok,
    {
        Ok(())
    }

    /// Status changes are not sent to Jira: accepted as they are.
    fn update_status(&self, task: &TaskId, status: TaskStatus) -> (r: Result<(), CharradissaError>)
        ensures
            r is Ok,
    {
        Ok(())
    }

    /// None: this tracker does not offer lookups.
    fn get_task(&self, task: &TaskId) -> (r: Result<Task, CharradissaError>)
        ensures
            r matches Err(CharradissaError::Tool(m)) && m@ == GET_TASK_UNSUPPORTED@,
    {
        Err(CharradissaError::Tool(string_from(GET_TASK_UNSUPPORTED)))
    }

    /// None: open tasks are not read back from Jira.
    fn list_open(&self, project: &ProjectId) -> (r: Result<Vec<Task>, CharradissaError>)
        ensures
            r matches Ok(tasks) && tasks@.len() == 0,
    {
        Ok(Vec::new())
    }
}

/// The task Jira created, from the `id` its answer gives: a tool error when
/// there is none.
pub fn created_task(id: Option<String>) -> (r: Result<TaskId, CharradissaError>)
    ensures
        match id {
            Some(i) => r matches Ok(t) && t@ == i@,
            None => r matches Err(CharradissaError::Tool(m)) && m@ == MISSING_ID@,
        },
{
    match id {
        Some(i) => Ok(TaskId::new(i.as_str())),
        None => Err(CharradissaError::Tool(string_from(MISSING_ID))),
    }
}

} // verus!
