//! The library's error.

use vstd::prelude::*;
use crate::text::{push_str, string_from};

verus! {

/// What went wrong.
#[derive(Debug, Clone, PartialEq, Eq)]
pub enum CharradissaError {
    Backend(String),
    ApprovalTimeout { id: String },
    ApprovalRejected { reason: String },
    Tool(String),
    Dispatch(String),
    Config(String),
    /// An I/O failure, as displayed.
    Io(String),
}

/// The message of an error.
pub open spec fn error_text(e: CharradissaError) -> Seq<char> {
    match e {
        CharradissaError::Backend(m) => "backend error: "@ + m@,
        CharradissaError::ApprovalTimeout { id } => "approval timeout for "@ + id@,
        CharradissaError::ApprovalRejected { reason } => "approval rejected: "@ + reason@,
        CharradissaError::Tool(m) => "tool error: "@ + m@,
        CharradissaError::Dispatch(m) => "dispatch error: "@ + m@,
        CharradissaError::Config(m) => "config error: "@ + m@,
        CharradissaError::Io(m) => "io error: "@ + m@,
    }
}

impl CharradissaError {
    /// The error's message.
    pub fn to_string(&self) -> (s: String)
        ensures
            s@ == error_text(*self),
    {
        let (prefix, rest): (&str, &str) = match self {
            CharradissaError::Backend(m) => ("backend error: ", m.as_str()),
            CharradissaError::ApprovalTimeout { id } => ("approval timeout for ", id.as_str()),
            CharradissaError::ApprovalRejected { reason } => ("approval rejected: ", reason.as_str()),
            CharradissaError::Tool(m) => ("tool error: ", m.as_str()),
            CharradissaError::Dispatch(m) => ("dispatch error: ", m.as_str()),
            CharradissaError::Config(m) => ("config error: ", m.as_str()),
            CharradissaError::Io(m) => ("io error: ", m.as_str()),
        };
        let mut s = string_from(prefix);
        push_str(&mut s, rest);
        s
    }
}

} // verus!
