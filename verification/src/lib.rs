//! The persistence rules of a writing application: a project root on disk
//! holds a manifest of stories, one folder and one small database per story,
//! and snapshots that can be exported and imported.
//!
//! This library decides; it reads and writes no file. Each operation takes
//! what was read from disk as plain values and returns the new manifest
//! together with what is to be written, moved or removed. The caller carries
//! that out.

use vstd::prelude::*;

pub mod clock;
pub mod data;
pub mod error;
pub mod ids;
pub mod json;
pub mod laws;
pub mod layout;
pub mod library;
pub mod load;
pub mod local;
pub mod manifest;
pub mod paths;
pub mod recency;
pub mod round_trip;
pub mod slug;
pub mod state;
pub mod stories;
pub mod story;
pub mod text;
pub mod transfer;
pub mod workspace;

verus! {

/// The schema version that this library writes and the newest one it reads.
pub const CURRENT_SCHEMA_VERSION: i64 = 1;

} // verus!
