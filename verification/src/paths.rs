//! The fixed locations this bootstrap works with: the remote snapshot
//! URL, the archive's local file name, and the marker path that proves
//! chain state is already materialized.

use vstd::prelude::*;

verus! {

/// The fixed remote location of the snapshot archive.
pub fn snapshot_url() -> (r: &'static str)
    ensures
        r@ == "https://d1joz5daoz8ntk.cloudfront.net/bg_chain_data07282019.zip"@,
{
    "https://d1joz5daoz8ntk.cloudfront.net/bg_chain_data07282019.zip"
}

/// The fixed file name the archive is stored under, inside the data
/// root's parent directory.
pub fn archive_file_name() -> (r: &'static str)
    ensures
        r@ == "bg_chain_data2.zip"@,
{
    "bg_chain_data2.zip"
}

/// The marker path, relative to the data root, whose existence as a
/// regular file is the sole source of truth for a materialized chain
/// state.
pub fn marker_rel_path() -> (r: &'static str)
    ensures
        r@ == "header/header_head/pmmr_data.bin"@,
{
    "header/header_head/pmmr_data.bin"
}

} // verus!
