//! Memoization of shell command executions.
//!
//! The verified core of `shmemo`: cache keys, cache layout, expiry,
//! the decisions of a memoized run, and the text the tool prints.
//! Reading and writing files, spawning processes and reading the
//! environment are left to the caller, which hands the results back
//! as plain values.

pub mod cache;
pub mod digest;
pub mod env;
pub mod error;
pub mod executor;
pub mod logger;
pub mod memo;
pub mod session;
pub mod text;
pub mod time;
