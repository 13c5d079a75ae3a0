//! Core engine of a file-extension case converter: discovering candidate
//! files from user-chosen paths, deciding how each file's extension is to be
//! renamed, and aggregating the per-file outcomes into a batch report.
//!
//! The host application performs the actual filesystem work (probing paths,
//! walking directories, renaming files) and hands the results to this crate,
//! which makes every decision and is verified to make them as specified.

pub mod casing;
pub mod paths;
pub mod collect;
pub mod rename;
pub mod report;
pub mod config;
pub mod i18n;
