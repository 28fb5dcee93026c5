//! The calls into `std::path` that bank path resolution makes, each with the
//! contract it is trusted to meet.
use vstd::prelude::*;

verus! {

/// Whether `std::path::Path` takes the path to be relative; on a given
/// target this depends on the text of the path alone.
pub uninterp spec fn relative_path(p: Seq<char>) -> bool;

/// The path that `std::path::Path::join` makes of a base and another path.
pub uninterp spec fn joined_path(base: Seq<char>, p: Seq<char>) -> Seq<char>;

/// Relies on std::path::Path::is_relative.
#[verifier::external_body]
pub(crate) fn path_is_relative(p: &str) -> (r: bool)
    ensures
        r == relative_path(p@),
{
    std::path::Path::new(p).is_relative()
}

/// Relies on std::path::Path::join; both parts are UTF-8, so is the result.
#[verifier::external_body]
pub(crate) fn path_join(base: &str, p: &str) -> (r: String)
    ensures
        r@ == joined_path(base@, p@),
{
    std::path::Path::new(base).join(p).to_string_lossy().into_owned()
}

} // verus!
