//! Building blocks for status-bar "feeds": small processes that periodically
//! sample one piece of system or network state and print one formatted line
//! per update to standard output.
//!
//! The heart of the library is the tick-driven update/render pipeline
//! ([`pipeline`]): a feed-specific [`pipeline::State`] accumulates events and
//! renders a line after every successful update.  A single-slot [`clock`]
//! provides the trigger, and [`backoff`] schedules retries with exponentially
//! growing delay for feeds whose source can fail.  [`bluetooth`] and
//! [`weather`] hold the per-feed logic; the surrounding I/O (device reads,
//! HTTP, sleeping) lives in the binary that drives the loop.

pub mod alert;
pub mod backoff;
pub mod bluetooth;
pub mod clock;
pub mod error;
pub mod pipeline;
pub mod weather;
