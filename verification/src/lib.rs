//! Control logic of an LLM-driven source auditor.
//!
//! The library holds every decision of an audit and proves what it
//! promises about them; it performs no input or output itself.
//!
//! - [`agent`]: the session with the model. `agent::model` gives the agent
//!   as a state machine over mathematical values, with the laws that hold
//!   of every run; `agent::agent_loop` is the executable agent, proved to
//!   compute that state machine. Tools, their schema, the single-call
//!   strategy, the file tools' decisions and the failures of the transport
//!   have modules of their own.
//! - [`analysis`]: grouping, counting and stable sorting of issues.
//! - [`audit`]: from reported issues to the report and the exit code.
//! - [`report`]: the report as Markdown.
//! - [`scanner`], [`repo`], [`config`], [`cli`], [`models`]: the data of a
//!   run and the rules on it.
//! - [`text`]: text operations with exact models over `Seq<char>`.
//! - [`json`]: what is believed of `serde_json`.
//!
//! A caller drives the agent: it asks for the pending `Action`, carries it
//! out (a call of the backend, a request on the file system), and reports
//! the result with `CodeAnalysisAgent::advance`.

pub mod agent;
pub mod analysis;
pub mod audit;
pub mod cli;
pub mod config;
pub mod json;
pub mod models;
pub mod repo;
pub mod report;
pub mod scanner;
pub mod text;
