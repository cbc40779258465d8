pub mod appservice;
pub mod backend;
pub mod client;
pub mod mcp;
