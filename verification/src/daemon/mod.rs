pub mod approval_relay;
pub mod registry;
pub mod queue_api;
pub mod mcp_api;
pub mod ctl;
pub mod startup;
