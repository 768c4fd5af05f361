//! The extraction step's verified part: the per-entry inclusion
//! predicate handed to the external decompression collaborator.

use vstd::prelude::*;

verus! {

/// Per-entry inclusion predicate for extraction. Today every archive
/// entry is approved unconditionally; the entry path parameter is the
/// seam where future filtering logic would look at the entry.
pub fn expected_file(entry_path: &str) -> (r: bool)
    ensures
        r,
{
    let _ = entry_path;
    true
}

} // verus!
