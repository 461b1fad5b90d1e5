//! Batch supervisor core for a per-user content downloader.
//!
//! The library holds the verified logic of the supervisor: the line
//! classifier for the downloader's output, the per-run counter state and its
//! fold over a line sequence, the pre-run gate and post-run sentinel policy,
//! sentinel file naming, command-line construction for the child process,
//! and duration formatting. Process launching, filesystem access and pacing
//! sleeps live outside the library and consume these functions' results.

pub mod args;
pub mod classify;
pub mod decision;
pub mod policy;
pub mod runstate;
pub mod sentinel;
pub mod text;
pub mod timefmt;
