//! Path syntax, as `std::path` reads it on the platform the crate is built
//! for.

use vstd::prelude::*;

verus! {

/// The final component of a path, as `std::path::Path::file_name` returns
/// it; `None` for a path that ends in `..`, is a root or prefix alone, or is
/// empty.
pub uninterp spec fn path_file_name(path: Seq<char>) -> Option<Seq<char>>;

/// The path that `std::path::Path::join` makes of `base` and `name`.
pub uninterp spec fn path_joined(base: Seq<char>, name: Seq<char>) -> Seq<char>;

/// A single path component that both Unix and Windows read as a plain name:
/// not empty, not `.` or `..`, and free of `/`, `\\` and `:`.
pub open spec fn normal_component(name: Seq<char>) -> bool {
    &&& name.len() > 0
    &&& name != seq!['.']
    &&& name != seq!['.', '.']
    &&& forall|i: int| 0 <= i < name.len() ==> #[trigger] name[i] != '/' && name[i] != '\\' && name[i] != ':'
}

/// `name` holds no `:`, so no platform reads a drive prefix in it.
pub open spec fn colon_free(name: Seq<char>) -> bool {
    forall|i: int| 0 <= i < name.len() ==> #[trigger] name[i] != ':'
}

/// The view of an optional string.
pub open spec fn opt_view(s: Option<String>) -> Option<Seq<char>> {
    match s {
        Some(t) => Some(t@),
        None => None,
    }
}

/// Calls `std::path::Path::file_name` on `path` and converts the component
/// to a `String` (a component of a `str` is valid UTF-8, so nothing is lost).
/// Claims that the result is `path_file_name` of the path, and what the
/// documentation of `Path::file_name` and `Path::components` gives: a plain
/// name is its own final component, and a final component without `:` (no
/// drive prefix), read as a path of its own, is again its own final
/// component.
#[verifier::external_body]
pub(crate) fn file_name_of(path: &str) -> (r: Option<String>)
    ensures
        opt_view(r) == path_file_name(path@),
        normal_component(path@) ==> opt_view(r) == Some(path@),
        r matches Some(name) ==> (colon_free(name@) ==> path_file_name(name@) == Some(name@)),
{
    match std::path::Path::new(path).file_name() {
        Some(name) => Some(name.to_string_lossy().into_owned()),
        None => None,
    }
}

/// Calls `std::path::Path::join` on `base` and `name` and converts the joined
/// path to a `String` (it is made of two `str`s, so nothing is lost). Claims
/// that the result is `path_joined` of the two, and, as the documentation of
/// `PathBuf::push` and `Path::file_name` gives, that a plain relative name
/// pushed onto a path becomes its final component.
#[verifier::external_body]
fn path_join(base: &str, name: &str) -> (r: String)
    ensures
        r@ == path_joined(base@, name@),
        normal_component(name@) ==> path_file_name(r@) == Some(name@),
{
    std::path::Path::new(base).join(name).to_string_lossy().into_owned()
}

/// The path `name` below the directory `base`.
pub fn join_path(base: &str, name: &str) -> (r: String)
    ensures
        r@ == path_joined(base@, name@),
        normal_component(name@) ==> path_file_name(r@) == Some(name@),
{
    path_join(base, name)
}

} // verus!
