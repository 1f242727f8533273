//! Working-copy inspection and hunk-level staging for a version-control
//! client: the hunk model, the diff fold, the patch synthesizer, status
//! classification and the commit-log record builder.

pub mod types;
pub mod text;
pub mod error;
pub mod diff;
pub mod patch;
pub mod status;
pub mod history;
pub mod repo;
pub mod watch;
pub mod store;


