//! Incremental polling engine for smart-contract log events.
//!
//! The engine owns a monotonically advancing block watermark, turns it into
//! contiguous, non-overlapping query ranges against a log-query API, maps each
//! raw log entry into a canonical event record, and fans every record out to a
//! set of independently failing sinks (console, file, webhook).

pub mod chains;
pub mod controller;
pub mod dispatch;
pub mod engine;
pub mod event;
pub mod filter;
pub mod render;
pub mod strutil;
pub mod watermark;
