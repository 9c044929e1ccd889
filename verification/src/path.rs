//! Paths, held as text, and the two operations on them that the browser needs.

use vstd::prelude::*;

verus! {

/// What `std::path::Path::join` makes of a directory's path and a name, both as text.
pub uninterp spec fn joined_path(base: Seq<char>, name: Seq<char>) -> Seq<char>;

/// What `std::path::Path::parent` makes of a path as text: the path without its last
/// component, or nothing where the path ends in a root or is empty.
pub uninterp spec fn parent_of(path: Seq<char>) -> Option<Seq<char>>;

/// The path of the entry `name` in the directory `base`.
///
/// Calls `std::path::Path::join`. The contract only gives the result its name,
/// `joined_path`: the same two texts always give the same path.
#[verifier::external_body]
pub(crate) fn join_path(base: &str, name: &str) -> (path: String)
    ensures
        path@ == joined_path(base@, name@),
{
    std::path::Path::new(base).join(name).to_string_lossy().into_owned()
}

/// The directory that holds `path`, if there is one.
///
/// Calls `std::path::Path::parent`. The contract only gives the result its name,
/// `parent_of`: the same text always gives the same answer.
#[verifier::external_body]
pub(crate) fn parent_path(path: &str) -> (parent: Option<String>)
    ensures
        match parent {
            Some(text) => parent_of(path@) == Some(text@),
            None => parent_of(path@) is None,
        },
{
    match std::path::Path::new(path).parent() {
        Some(parent) => Some(parent.to_string_lossy().into_owned()),
        None => None,
    }
}

} // verus!
