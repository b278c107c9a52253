//! Job orchestration core of a download service: progress-line parsing,
//! argument construction, and a keyed job registry with admission control.

pub mod arguments;
pub mod config;
pub mod error;
pub mod files;
pub mod models;
pub mod progress;
pub mod registry;
pub mod supervisor;
