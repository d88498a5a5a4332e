//! A harness for integration tests that drive scripted agents ("turtles") in
//! a shared, live world server.
//!
//! Tests lease non-overlapping plots of the world (`allocator`), run
//! commands there through the server console (`commands`, `console`), build
//! and provision agents (`computer`), exchange messages with them (`packet`,
//! `lua`, `panic_report`, `walkback`), and mark their plot passed or failed
//! exactly once (`session`). The library decides what to send and how to read
//! replies; the caller performs the I/O.

pub mod allocator;
pub mod block;
pub mod commands;
pub mod computer;
pub mod console;
pub mod decimal;
pub mod item;
pub mod json;
pub mod lua;
pub mod packet;
pub mod panic_report;
pub mod position;
pub mod session;
pub mod text;
pub mod turtle;
pub mod vanilla_item;
pub mod walkback;
