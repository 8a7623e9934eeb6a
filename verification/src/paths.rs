//! Lexical path algebra.
//!
//! Paths are UTF-8 strings. The operations are those of the `camino` crate;
//! each is called through one function of this module, and what it returns
//! is named by a specification function of the same meaning. None of them
//! looks at the file system. The names stand for what `camino` computes on
//! Unix, where the launcher runs.

use vstd::prelude::*;

verus! {

/// `base` with `rel` adjoined, as `camino::Utf8Path::join` computes it.
pub uninterp spec fn joined(base: Seq<char>, rel: Seq<char>) -> Seq<char>;

/// `path` without its final component, as `camino::Utf8Path::parent` computes it.
pub uninterp spec fn parent_of(path: Seq<char>) -> Option<Seq<char>>;

/// The final component of `path`, as `camino::Utf8Path::file_name` computes it.
pub uninterp spec fn file_name_of(path: Seq<char>) -> Option<Seq<char>>;

/// What is left of `path` behind `base`, as `camino::Utf8Path::strip_prefix`
/// computes it; `None` where `base` is no prefix of `path`.
pub uninterp spec fn without_prefix(path: Seq<char>, base: Seq<char>) -> Option<Seq<char>>;

/// Whether two strings are the same path for `camino`, which compares paths
/// component by component.
pub uninterp spec fn same_path(a: Seq<char>, b: Seq<char>) -> bool;

/// Whether a link that reads `target` leads where one that reads `wanted`
/// does: the two are the same string, or the same path.
pub open spec fn same_target(target: Seq<char>, wanted: Seq<char>) -> bool {
    target == wanted || same_path(target, wanted)
}

/// The error of `camino::Utf8Path::strip_prefix`, which is that of
/// `std::path::Path::strip_prefix`. Nothing is said of what it holds.
#[verifier::external_type_specification]
#[verifier::external_body]
pub struct ExStripPrefixError(std::path::StripPrefixError);

/// Calls `camino::Utf8Path::join`. Trusted: the result is `joined` of the
/// two arguments.
#[verifier::external_body]
pub(crate) fn join(base: &str, rel: &str) -> (out: String)
    ensures
        out@ == joined(base@, rel@),
{
    camino::Utf8Path::new(base).join(rel).into_string()
}

/// Calls `camino::Utf8Path::parent`. Trusted: the result is `parent_of` of
/// the argument.
#[verifier::external_body]
pub(crate) fn parent(path: &str) -> (out: Option<String>)
    ensures
        out.deep_view() == parent_of(path@),
{
    camino::Utf8Path::new(path).parent().map(camino::Utf8Path::as_str).map(str::to_owned)
}

/// Calls `camino::Utf8Path::file_name`. Trusted: the result is
/// `file_name_of` of the argument.
#[verifier::external_body]
pub(crate) fn file_name(path: &str) -> (out: Option<String>)
    ensures
        out.deep_view() == file_name_of(path@),
{
    camino::Utf8Path::new(path).file_name().map(str::to_owned)
}

/// Calls `camino::Utf8Path::strip_prefix`. Trusted: the call succeeds where
/// `without_prefix` is `Some`, and then returns what it holds.
#[verifier::external_body]
pub(crate) fn strip_prefix(path: &str, base: &str) -> (out: Result<String, std::path::StripPrefixError>)
    ensures
        out is Ok <==> without_prefix(path@, base@) is Some,
        out matches Ok(rest) ==> Some(rest@) == without_prefix(path@, base@),
{
    camino::Utf8Path::new(path).strip_prefix(base).map(camino::Utf8Path::as_str).map(str::to_owned)
}

/// Compares two paths with `==` of `camino::Utf8Path`. Trusted: the result
/// is `same_path` of the two arguments, and a string is the same path as
/// itself.
#[verifier::external_body]
pub(crate) fn path_eq(a: &str, b: &str) -> (out: bool)
    ensures
        out == same_path(a@, b@),
        a@ == b@ ==> out,
{
    camino::Utf8Path::new(a) == camino::Utf8Path::new(b)
}

} // verus!
