//! Repository status and diff reconciliation, and the decision logic of a
//! debounced, filtered directory watcher.
pub mod text;
pub mod status;
mod repo;
pub mod diff;
pub mod watcher;
