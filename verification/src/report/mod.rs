//! The report of an audit.

pub mod generator;

pub use generator::generate_markdown_report;
