//! The error taxonomy of the bootstrap stages, and the best-effort policy
//! over it: every failure is reported and the node falls back to normal
//! peer-to-peer sync; none is allowed to abort the host process.

use vstd::prelude::*;

verus! {

/// Everything that can go wrong across the bootstrap stages.
#[derive(Clone, Copy, PartialEq, Eq, Structural, Debug)]
pub enum DownloadError {
    /// The snapshot URL does not parse.
    UrlParse,
    /// The metadata or transfer request failed.
    Network,
    /// The remote size could not be determined; progress reporting
    /// degrades but the transfer is still attempted.
    SizeUnknown,
    /// The archive or destination path could not be opened.
    FileOpen,
    /// The extraction collaborator reported a decompression failure.
    Extraction,
    /// The data root has no parent directory to store the archive in.
    PathResolution,
}

impl DownloadError {
    /// The best-effort policy, stated explicitly: no bootstrap error is
    /// fatal. Whatever failed, the caller reports it and continues.
    pub fn is_fatal(&self) -> (r: bool)
        ensures
            r == false,
    {
        match self {
            DownloadError::UrlParse => false,
            DownloadError::Network => false,
            DownloadError::SizeUnknown => false,
            DownloadError::FileOpen => false,
            DownloadError::Extraction => false,
            DownloadError::PathResolution => false,
        }
    }
}

} // verus!
