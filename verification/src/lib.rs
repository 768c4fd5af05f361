//! Bootstrap acceleration for a blockchain node: decide from local
//! filesystem evidence whether a pre-built chain-state snapshot must be
//! downloaded, extracted, or neither; plan a resumable, progress-reporting
//! download of the snapshot archive; and hand the archive to extraction.
//!
//! All network and filesystem work happens outside this library; it is
//! given plain values (probe results, header values, byte counts) and
//! returns decisions and fully-formed request parts.

pub mod digits;
pub mod download;
pub mod errors;
pub mod extract;
pub mod paths;
pub mod progress;
pub mod state;
