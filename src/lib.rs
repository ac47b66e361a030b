//! Patch Tuesday bulletin summaries: the bulletin's domain model, the
//! aggregation of its vulnerabilities into a report, the report's text and
//! HTML renderings, and the rule that picks a month's release date.
pub mod laws;
pub mod model;
pub mod report_formatter;
pub mod schedule;
pub mod text;
