//! Verified core of a single-worker model runner.
//!
//! The library discovers model artifacts from directory listings, resolves a
//! launch command for a chosen model through an ordered fallback policy, and
//! supervises at most one live worker at a time, turning the worker's output
//! lines into discrete notifications.  All filesystem reads, process spawning
//! and thread plumbing stay outside the library: callers hand in plain values
//! (directory entries, existence facts, output lines, a handle for a spawned
//! worker) and receive plain values back.

pub mod catalog;
pub mod events;
pub mod resolver;
pub mod supervisor;
