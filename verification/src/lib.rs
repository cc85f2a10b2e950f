//! Verified core of the `scope` developer-experience tool: configuration models,
//! command preparation, doctor check/fix decisions, group ordering, file caching,
//! known-error scanning and report assembly.

mod text;
pub mod words;
pub mod command;
pub mod reader;
pub mod check;
pub mod report;
pub mod names;
pub mod runner;
pub mod v1alpha;
pub mod models;
pub mod pairs;
pub mod report_config;
pub mod report_context;
pub mod analyze;
pub mod file_cache;
pub mod doctor_run;
pub mod capture;
pub mod config;
pub mod outcome;
pub mod listing;
pub mod json;
pub mod render;

pub use text::{chars_of, str_eq, string_from_chars};
