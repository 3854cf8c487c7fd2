//! Decision core of a desktop shell that hosts a web front end.
//!
//! The shell itself only moves bytes and starts processes. Everything it has
//! to decide lives here, as functions from plain values to plain values: which
//! directories a cache clear may remove, what a stale-worker eviction
//! unregisters and deletes and whether it reloads the page, what runs at
//! startup and at exit, and which failures reach the caller.

pub mod cache;
pub mod command;
pub mod eviction;
pub mod lifecycle;
pub mod outcome;
pub mod platform;
pub mod render;
pub mod script;
pub mod sidecar;
