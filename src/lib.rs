//! A throughput governor for byte streams: rate limiting by bytes, lines or
//! null-separated records, pause and cancel latches, and progress telemetry.

pub mod admission;
pub mod app;
pub mod broadcast;
pub mod cli;
pub mod config;
pub mod instantaneous;
pub mod ipc;
pub mod limiter;
pub mod memslot;
pub mod progress;
pub mod syncio;
pub mod unit;
pub mod text;
pub mod tui;
pub mod widgets;
