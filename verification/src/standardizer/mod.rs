//! Mapping raw XBRL facts to standardized financial metrics.
pub mod output;
pub mod dedup;
pub mod period_align;
pub mod resolution;
pub mod catalog;
pub mod learned_tags;
pub mod engine;
pub mod coverage;
pub mod llm_classifier;
