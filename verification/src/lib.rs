pub mod text;
pub mod json;
pub mod clock;
pub mod error;
pub mod approval;
pub mod types;
pub mod config;
pub mod responder;
pub mod blocks;
pub mod tool_loop;
pub mod routing;
pub mod mermaid;
pub mod registration;
pub mod pairs;
pub mod dm_registry;
pub mod daemon;
pub mod matrix;
pub mod farcaster;
pub mod farga;
pub mod concierge;
pub mod agents;
pub mod transport;
pub mod task;
pub mod jira;
pub mod graph_context;
