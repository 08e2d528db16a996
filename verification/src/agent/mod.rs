//! The agent that audits a repository through an LLM.

pub mod agent_loop;
pub mod file_tools;
pub mod model;
pub mod schema;
pub mod single_call;
pub mod tools;
pub mod transport;

pub use agent_loop::{AgentConfig, CodeAnalysisAgent};
