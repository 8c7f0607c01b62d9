//! Verified core of a terminal network speed test.
//!
//! - [`engine`]: DSCP marking of test traffic and the IPv4 / IPv6 comparison.
//! - [`tui`]: the state of the terminal interface and every decision it takes on
//!   a key press or an engine event.
//! - [`model`]: what a run measures and reports.
//! - [`text`], [`text_laws`]: strings as sequences of characters.
//! - [`binary64`]: ratios and percentages as double-precision arithmetic yields them.
//!
//! Reading the terminal, the network, the disk and the clock is left to the caller.

pub mod binary64;
pub mod engine;
pub mod model;
pub mod text;
pub mod text_laws;
pub mod tui;
