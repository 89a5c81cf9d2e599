//! Paths as text: the three computations on paths that a copy needs.

use vstd::prelude::*;

verus! {

/// What `std::path::Path::strip_prefix` makes of `path` and `base`: the rest of `path`
/// behind `base`, or `None` where `path` does not begin with `base`.
pub uninterp spec fn path_without_prefix(path: Seq<char>, base: Seq<char>) -> Option<Seq<char>>;

/// What `std::path::Path::join` makes of `base` and `rest`.
pub uninterp spec fn path_joined(base: Seq<char>, rest: Seq<char>) -> Seq<char>;

/// What `std::path::Path::parent` makes of `path`: `path` without its last component, or
/// `None` where there is nothing above it.
pub uninterp spec fn path_parent(path: Seq<char>) -> Option<Seq<char>>;

/// Calls `std::path::Path::strip_prefix`. The contract only gives the result its name: the
/// call depends on nothing but the two texts.
#[verifier::external_body]
pub(crate) fn without_prefix(path: &str, base: &str) -> (r: Option<String>)
    ensures
        r.deep_view() == path_without_prefix(path@, base@),
{
    std::path::Path::new(path).strip_prefix(base).ok().map(
        |rest| rest.to_string_lossy().into_owned(),
    )
}

/// Calls `std::path::Path::join`. The contract only gives the result its name: the call
/// depends on nothing but the two texts.
#[verifier::external_body]
pub(crate) fn joined(base: &str, rest: &str) -> (r: String)
    ensures
        r@ == path_joined(base@, rest@),
{
    std::path::Path::new(base).join(rest).to_string_lossy().into_owned()
}

/// Calls `std::path::Path::parent`. The contract only gives the result its name: the call
/// depends on nothing but the text.
#[verifier::external_body]
pub(crate) fn parent(path: &str) -> (r: Option<String>)
    ensures
        r.deep_view() == path_parent(path@),
{
    std::path::Path::new(path).parent().map(|above| above.to_string_lossy().into_owned())
}

} // verus!
