//! Standardized financial statements from SEC EDGAR XBRL facts, and a
//! filter and dedup engine for watching new filings.
pub mod dates;
pub mod models;
pub mod standardizer;
pub mod text;
pub mod watcher;
