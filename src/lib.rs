pub mod ai_prompts;
pub mod ai_response;
pub mod client_ip;
pub mod error;
pub mod mcp;
pub mod rate_limit_laws;
pub mod rate_limiter;
pub mod service;
pub mod store;
pub mod text;
pub mod transpilation;
pub mod types;
