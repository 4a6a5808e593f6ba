//! A small self-hosted file-sharing service, as a verified library.
//!
//! The service itself is thin glue over an HTTP framework: it serves static
//! assets, accepts multipart file uploads into a local `files` directory, and
//! redirects requests that arrive under the wrong host name.  This crate holds
//! the decisions that glue makes — the host-redirect predicate, the
//! sanitization and construction of destination paths, the size-limit check,
//! and a model of the files directory showing what an upload leaves on disk —
//! each with a proved contract.  The binary around it does the actual I/O.

use vstd::prelude::*;

pub mod host;
pub mod paths;
pub mod store;
pub mod upload;

verus! {

/// Largest total request body the upload endpoint accepts, in bytes (10 GiB).
pub const TOTAL_SIZE_LIMIT: u64 = 10 * 1024 * 1024 * 1024;

/// Largest part buffered in memory before spilling to a temporary file (10 MiB).
pub const MEMORY_BUFFER_LIMIT: u64 = 10 * 1024 * 1024;

} // verus!
