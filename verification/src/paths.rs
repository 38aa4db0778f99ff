//! Destination paths for downloaded files. The path doubles as the
//! idempotency key: a post whose path already exists on disk is skipped.

use vstd::prelude::*;
use vstd::string::StringExecFns;
use crate::decimal::{decimal_digits, u64_to_decimal};

verus! {

/// The filename a post is stored under: artist label, post id and the
/// file's extension.
pub open spec fn dest_filename_spec(artist: Seq<char>, id: nat, ext: Seq<char>) -> Seq<char> {
    artist + "-"@ + decimal_digits(id) + "."@ + ext
}

/// The path of a post's file, relative to the working directory: its
/// filename inside the flat download directory.
pub open spec fn dest_path_spec(artist: Seq<char>, id: nat, ext: Seq<char>) -> Seq<char> {
    "./dl/"@ + dest_filename_spec(artist, id, ext)
}

/// Builds the filename a post is stored under.
pub fn dest_filename(artist: &str, id: u64, ext: &str) -> (r: String)
    ensures
        r@ == dest_filename_spec(artist@, id as nat, ext@),
{
    let mut s = artist.to_owned();
    s.append("-");
    let num = u64_to_decimal(id);
    s.append(num.as_str());
    s.append(".");
    s.append(ext);
    proof {
        assert(s@ =~= dest_filename_spec(artist@, id as nat, ext@));
    }
    s
}

/// Builds the full relative path a post is stored under.
pub fn dest_path(artist: &str, id: u64, ext: &str) -> (r: String)
    ensures
        r@ == dest_path_spec(artist@, id as nat, ext@),
{
    let mut s = "./dl/".to_owned();
    let name = dest_filename(artist, id, ext);
    s.append(name.as_str());
    s
}

} // verus!
