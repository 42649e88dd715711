//! Paths. The browser holds a path as text and leaves the syntax of paths to
//! the standard library: what the parent of a path is and how a name is
//! appended to a directory are named here, not defined.

use vstd::prelude::*;

verus! {

/// The parent of `path` under the path syntax of the platform: the path
/// without its final component, or `None` where `path` is empty or ends in a
/// root. This is what `std::path::Path::parent` returns.
pub uninterp spec fn parent_of(path: Seq<char>) -> Option<Seq<char>>;

/// The path that `dir` becomes when `name` is pushed onto it under the path
/// syntax of the platform. This is what `std::path::PathBuf::push` leaves in
/// a buffer that held `dir`.
pub uninterp spec fn joined(dir: Seq<char>, name: Seq<char>) -> Seq<char>;

/// The characters of an optional text.
pub open spec fn text_view(text: Option<String>) -> Option<Seq<char>> {
    match text {
        Some(t) => Some(t@),
        None => None,
    }
}

/// Calls `std::path::Path::parent` on `path`. Nothing is claimed of the
/// result but that it is the function of `path` named [`parent_of`]; the call
/// does not panic.
#[verifier::external_body]
pub(crate) fn parent(path: &str) -> (dir: Option<String>)
    ensures
        text_view(dir) == parent_of(path@),
{
    match std::path::Path::new(path).parent() {
        Some(dir) => Some(dir.to_string_lossy().into_owned()),
        None => None,
    }
}

/// Calls `std::path::PathBuf::push` with `name` on a buffer that holds
/// `dir`. Nothing is claimed of the result but that it is the function of
/// `dir` and `name` named [`joined`]; the call does not panic.
#[verifier::external_body]
pub(crate) fn join(dir: &str, name: &str) -> (full: String)
    ensures
        full@ == joined(dir@, name@),
{
    let mut full = std::path::PathBuf::from(dir);
    full.push(name);
    full.to_string_lossy().into_owned()
}

/// The name of the file that a conversion writes, in the directory of its
/// source.
pub open spec fn output_name() -> Seq<char> {
    "output.mp3"@
}

/// Where the conversion of `source` writes: the fixed output name in the
/// directory of `source`. A path without a parent has no target.
pub open spec fn target_of(source: Seq<char>) -> Option<Seq<char>> {
    match parent_of(source) {
        Some(dir) => Some(joined(dir, output_name())),
        None => None,
    }
}

/// Where the up control leads from `dir`: to its parent, or to `dir` itself
/// where it has none.
pub open spec fn up_of(dir: Seq<char>) -> Seq<char> {
    match parent_of(dir) {
        Some(parent) => parent,
        None => dir,
    }
}

/// The output path for the conversion of `source`.
pub fn conversion_target(source: &str) -> (target: Option<String>)
    ensures
        text_view(target) == target_of(source@),
{
    match parent(source) {
        Some(dir) => Some(join(dir.as_str(), "output.mp3")),
        None => None,
    }
}

/// The directory that the up control leads to from `dir`.
pub fn up_target(dir: &str) -> (up: String)
    ensures
        up@ == up_of(dir@),
{
    match parent(dir) {
        Some(parent) => parent,
        None => dir.to_string(),
    }
}

/// The output path of a conversion depends on the directory of its source
/// alone, not on the source's own name: two sources with the same parent
/// have the same target.
pub proof fn lemma_target_ignores_base_name(first: Seq<char>, second: Seq<char>)
    requires
        parent_of(first) == parent_of(second),
    ensures
        target_of(first) == target_of(second),
{
}

} // verus!
