//! Non-blocking filesystem I/O semantics: open modes, file-handle
//! operations, and metadata snapshots.
//!
//! This crate holds the verified core: mode-token parsing, path
//! validation, seek-origin handling, UTF-8 decode decisions, and the
//! file-state machine that gives the handle operations (read, write,
//! readline, readlines, seek, tell, close) their meaning, together
//! with proofs of the laws relating those operations. The async layer
//! that performs the actual OS calls sits outside the verified core
//! and reproduces these semantics over an OS descriptor.

pub mod errors;
pub mod file;
pub mod laws;
pub mod meta;
pub mod mode;
pub mod paths;
pub mod text;
pub mod whence;
