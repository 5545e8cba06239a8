//! A verified extraction library for PTT bulletin-board articles.
//!
//! The library turns a decoded snapshot of an article page into a structured
//! record (metadata, body text, threaded replies with reconstructed
//! timestamps) and aggregates results across page ranges, isolating
//! per-item failures.

use vstd::prelude::*;

pub mod article;
pub mod board;
pub mod chars;
pub mod crawler;
pub mod dates;
pub mod document;
pub mod parser;
pub mod stamp;
pub mod text;

verus! {

/// Seconds east of UTC for the board's fixed local offset (UTC+8).
pub const TW_TIME_OFFSET_SECS: u32 = 28800;

} // verus!
