//! The boundary to `std::path`: where a text becomes a place on disk.

use std::path::PathBuf;
use vstd::prelude::*;

verus! {

/// `std::path::PathBuf`, which this library hands on without looking inside.
#[verifier::external_type_specification]
#[verifier::external_body]
pub struct ExPathBuf(PathBuf);

/// The path that `PathBuf::from` makes of a text: the path that is written
/// with that text.
pub uninterp spec fn path_of(text: Seq<char>) -> PathBuf;

/// Calls `PathBuf::from` on a text. The path holds the text as it is.
#[verifier::external_body]
pub(crate) fn path_from(text: String) -> (path: PathBuf)
    ensures
        path == path_of(text@),
{
    PathBuf::from(text)
}

} // verus!
