//! Path arithmetic, done by the standard library.
//!
//! What `std::path` computes is not re-derived here: each result gets a
//! name, and the contracts of this crate speak of those names.

use std::path::Path;
use vstd::prelude::*;

verus! {

/// The path that `Path::join` makes of `base` and `rel`.
pub uninterp spec fn joined(base: Seq<char>, rel: Seq<char>) -> Seq<char>;

/// The path that `Path::parent` gives for `path`, if it gives one.
pub uninterp spec fn parent_of(path: Seq<char>) -> Option<Seq<char>>;

/// Whether `Path` equality holds between `a` and `b`.
pub uninterp spec fn same_path(a: Seq<char>, b: Seq<char>) -> bool;

/// Calls `Path::join` on `base` with `rel`.
///
/// Trusted: the result is the one named [`joined`]. Both arguments are
/// UTF-8, so the joined path is too and no character is replaced when it is
/// turned back into a `String`.
#[verifier::external_body]
pub(crate) fn join(base: &str, rel: &str) -> (r: String)
    ensures
        r@ == joined(base@, rel@),
{
    Path::new(base).join(rel).to_string_lossy().into_owned()
}

/// Calls `Path::parent` on `path`.
///
/// Trusted: the result is the one named [`parent_of`], `None` where
/// `Path::parent` returns `None`.
#[verifier::external_body]
pub(crate) fn parent(path: &str) -> (r: Option<String>)
    ensures
        match r {
            Some(p) => parent_of(path@) == Some(p@),
            None => parent_of(path@) is None,
        },
{
    Path::new(path).parent().map(|p| p.to_string_lossy().into_owned())
}

/// Compares `a` and `b` with the `==` of `Path`.
///
/// Trusted: the result is the one named [`same_path`], and a path equals
/// itself.
#[verifier::external_body]
pub(crate) fn paths_equal(a: &str, b: &str) -> (r: bool)
    ensures
        r == same_path(a@, b@),
        a@ == b@ ==> r,
{
    Path::new(a) == Path::new(b)
}

} // verus!
