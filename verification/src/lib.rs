//! Polls a set of independently addressed remote servers for status
//! snapshots and hands each reading to a time-series sink.
//!
//! The heart of the library is the per-target connection supervision:
//! the backoff policy ([`backoff`]), the connection lifecycle state
//! machine one worker runs per target ([`worker`]), and the supervisor
//! that staggers worker launches and restarts aborted workers
//! ([`supervisor`]). The configuration model with its pure defaulting
//! and resolution lives in [`config`], the readings built from fetched
//! snapshots in [`reading`] and [`snapshot`], and the verified string
//! helpers they share in [`text`].

pub mod backoff;
pub mod config;
pub mod reading;
pub mod snapshot;
pub mod supervisor;
pub mod text;
pub mod worker;
