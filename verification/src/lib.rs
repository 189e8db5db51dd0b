//! Reconciliation of staged inventory extensions against a loaded collection.
//!
//! The library models extension metadata (identity, display name, semantic
//! version), detects identity collisions between staged and loaded
//! extensions, classifies how the two versions of a colliding extension
//! differ, and decides per collision whether the staged extension should be
//! loaded, reloaded, or skipped. The surrounding program performs the file
//! discovery, TOML parsing and storage traffic and feeds plain values in.

pub mod conflicts;
pub mod manager;
pub mod models;
