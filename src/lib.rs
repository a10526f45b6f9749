//! Decision core of a repository synchronisation engine: progress
//! accounting and rendering, merge-strategy selection, and the session
//! that drives clone, fetch, fast-forward and three-way merge.

pub mod oid;
pub mod analysis;
pub mod text;
pub mod progress;
pub mod session;
pub mod laws;
pub mod messages;
pub mod image;
