//! Bootstrap state evaluation: which of the three bootstrap stages is
//! still needed, decided purely from filesystem probe results.

use vstd::prelude::*;

verus! {

/// The three mutually exclusive bootstrap stages, computed fresh from
/// filesystem evidence on every invocation and never cached.
#[derive(Clone, Copy, PartialEq, Eq, Structural, Debug)]
pub enum BootstrapState {
    /// No local archive and no materialized chain state: fetch the snapshot.
    NeedsDownload,
    /// An archive (possibly partial) is present: skip straight to extraction.
    NeedsExtract,
    /// The marker file proves chain state is already materialized.
    NotNeeded,
}

/// The decision rule: the marker file (existing and a regular file) is the
/// sole source of truth for `NotNeeded`; otherwise an openable archive
/// means `NeedsExtract`; otherwise `NeedsDownload`.
pub open spec fn evaluate_spec(
    marker_exists: bool,
    marker_is_file: bool,
    archive_openable: bool,
) -> BootstrapState {
    if marker_exists && marker_is_file {
        BootstrapState::NotNeeded
    } else if archive_openable {
        BootstrapState::NeedsExtract
    } else {
        BootstrapState::NeedsDownload
    }
}

/// Decide which bootstrap stage is still needed.
///
/// `marker_exists` / `marker_is_file` report the probe of the marker path
/// inside the data root; a probe that failed for any reason (including a
/// permission error) is reported as `false`, favouring a re-attempted sync
/// over a crash. `archive_openable` reports whether the archive path could
/// be opened for reading.
pub fn evaluate(marker_exists: bool, marker_is_file: bool, archive_openable: bool) -> (r:
    BootstrapState)
    ensures
        r == evaluate_spec(marker_exists, marker_is_file, archive_openable),
        marker_exists && marker_is_file ==> r == BootstrapState::NotNeeded,
        !(marker_exists && marker_is_file) && archive_openable ==> r
            == BootstrapState::NeedsExtract,
        !(marker_exists && marker_is_file) && !archive_openable ==> r
            == BootstrapState::NeedsDownload,
{
    if marker_exists && marker_is_file {
        BootstrapState::NotNeeded
    } else if archive_openable {
        BootstrapState::NeedsExtract
    } else {
        BootstrapState::NeedsDownload
    }
}

/// Evaluation is idempotent: two evaluations of unchanged filesystem
/// evidence yield the same state.
pub proof fn lemma_evaluate_idempotent(
    marker_exists1: bool,
    marker_is_file1: bool,
    archive_openable1: bool,
    marker_exists2: bool,
    marker_is_file2: bool,
    archive_openable2: bool,
)
    requires
        marker_exists1 == marker_exists2,
        marker_is_file1 == marker_is_file2,
        archive_openable1 == archive_openable2,
    ensures
        evaluate_spec(marker_exists1, marker_is_file1, archive_openable1) == evaluate_spec(
            marker_exists2,
            marker_is_file2,
            archive_openable2,
        ),
{
}

/// What the orchestrator does in each state: the download runs only when
/// one is needed, and extraction runs unless nothing is needed at all.
/// Returns `(download, extract)`.
pub fn bootstrap_actions(st: BootstrapState) -> (r: (bool, bool))
    ensures
        r.0 == (st is NeedsDownload),
        r.1 == !(st is NotNeeded),
{
    match st {
        BootstrapState::NeedsDownload => (true, true),
        BootstrapState::NeedsExtract => (false, true),
        BootstrapState::NotNeeded => (false, false),
    }
}

} // verus!
