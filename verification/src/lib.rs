//! Hot-reload coordination for a live shader preview.
//!
//! The crate holds the logic that decides when a shader is rebuilt and which
//! file is watched for changes: the poll-based watcher state machine, the
//! pipeline coordinator that keeps the last working pipeline across failed
//! rebuilds, the selection cursor over the candidate shader list, and the
//! loading path that turns a file's bytes into a compiled shader module.

pub mod pipeline;
pub mod select;
pub mod shader;
pub mod watch;
