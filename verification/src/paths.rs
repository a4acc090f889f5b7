//! Paths, as `camino` handles them.

use vstd::prelude::*;

verus! {

/// What `camino::Utf8Path::join` makes of a path and a path to adjoin, by
/// the path rules of the system that the crate is built for.
pub uninterp spec fn path_join(base: Seq<char>, part: Seq<char>) -> Seq<char>;

/// The components of what is left of `path` once
/// `camino::Utf8Path::strip_prefix` has taken `root` off it; nothing where
/// `root` is no prefix of `path`. Components are told apart by the path
/// rules of the system that the crate is built for.
pub uninterp spec fn path_below(root: Seq<char>, path: Seq<char>) -> Option<Seq<Seq<char>>>;

/// `camino::Utf8Path::join` adjoins `part` to `base`.
#[verifier::external_body]
pub(crate) fn join_path(base: &str, part: &str) -> (r: String)
    ensures
        r@ == path_join(base@, part@),
{
    camino::Utf8Path::new(base).join(part).into_string()
}

/// `camino::Utf8Path::strip_prefix` hands out the path that, joined onto
/// `root`, gives `path`, and fails where `root` is no prefix of `path`;
/// `Utf8Path::components` walks the components of a path.
#[verifier::external_body]
pub(crate) fn components_below(root: &str, path: &str) -> (r: Option<Vec<String>>)
    ensures
        r.deep_view() == path_below(root@, path@),
{
    camino::Utf8Path::new(path).strip_prefix(root).ok().map(
        |rest| rest.components().map(|c| c.as_str().to_string()).collect(),
    )
}

} // verus!
