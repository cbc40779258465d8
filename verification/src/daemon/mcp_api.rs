//! The state the Matrix tool server's HTTP endpoint serves from.

use vstd::prelude::*;
use std::sync::Arc;
use crate::matrix::mcp::MatrixMcp;

verus! {

/// The state behind `POST /mcp`.
#[derive(Clone)]
pub struct McpState {
    pub mcp: Arc<MatrixMcp>,
}

} // verus!
