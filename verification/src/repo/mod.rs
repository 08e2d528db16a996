//! Where the sources under audit come from.

pub mod cloner;

pub use cloner::{parse_github_url, CloneOptions};
