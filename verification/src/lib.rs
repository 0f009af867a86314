//! Verified core of a mod-file synchroniser.
//!
//! The library holds the decision logic of the pipeline: resolving the newest
//! matching registry version, choosing the file to install, deciding whether a
//! local file is already current (by content hash alone), and verifying a
//! freshly written file against its declared hash.  All file and network I/O
//! is performed by a thin unverified driver that feeds results back into the
//! state machine defined here.

pub mod cache;
pub mod client;
pub mod configuration;
pub mod download;
pub mod hash;
pub mod registry;
