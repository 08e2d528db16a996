//! Statistics over the issues of an audit.

pub mod aggregator;
pub mod order;

pub use aggregator::{
    aggregate_issues, generate_summary_text, group_by_category, group_by_file, group_by_severity,
    identify_patterns, language_distribution, most_problematic_files, sort_issues_by_severity,
    top_issues,
};
