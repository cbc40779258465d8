pub mod concurrence;
pub mod milestone;
pub mod observation;
pub mod analyzer;
pub mod governance;
pub mod digest;
pub mod agent;
pub mod cross_domain;
pub mod domain_concierge;
pub mod claude_analyzer;
pub mod cross_domain_analyzer;
