//! Paths as text, read by the path syntax of the platform.
//!
//! The viewer keeps every path as a `String`. What a path's final component,
//! its extension and its parent are, and when two texts denote the same path,
//! is decided by `std::path::Path`; this module gives those answers names that
//! contracts can speak of. The functions marked `external_body` are trusted:
//! their contracts are taken from the standard library's documentation and are
//! not proved here.

use vstd::prelude::*;

verus! {

/// The final component of the path written as `path`, as
/// `std::path::Path::file_name` reports it on the platform the library is
/// built for; `None` where the path has none (it is empty, a root, or ends
/// in `..`).
pub uninterp spec fn file_name_of(path: Seq<char>) -> Option<Seq<char>>;

/// The path written as `path` without its final component, as
/// `std::path::Path::parent` reports it; `None` where the path ends in a root
/// or is empty.
pub uninterp spec fn parent_of(path: Seq<char>) -> Option<Seq<char>>;

/// Whether `a` and `b` denote the same path, as `==` on `std::path::Path`
/// decides it (component by component).
pub uninterp spec fn same_path(a: Seq<char>, b: Seq<char>) -> bool;

/// The text of an optional string.
pub open spec fn text_of(s: Option<String>) -> Option<Seq<char>> {
    match s {
        Some(s) => Some(s@),
        None => None,
    }
}

/// The texts of a list of strings, in order.
pub open spec fn texts_of(list: Seq<String>) -> Seq<Seq<char>> {
    list.map_values(|s: String| s@)
}

/// Whether `i` is the place of the last `.` in `name`.
pub open spec fn is_last_dot(name: Seq<char>, i: int) -> bool {
    &&& 0 <= i < name.len()
    &&& name[i] == '.'
    &&& forall|j: int| i < j < name.len() ==> name[j] != '.'
}

/// The extension of a file name: what follows its last `.`, unless the name
/// holds no `.` or its only `.` is the first character.
pub open spec fn extension_of_name(name: Seq<char>) -> Option<Seq<char>> {
    if exists|i: int| 0 < i && is_last_dot(name, i) {
        let i = choose|i: int| 0 < i && is_last_dot(name, i);
        Some(name.subrange(i + 1, name.len() as int))
    } else {
        None
    }
}

/// The extension of the path written as `path`: that of its final component.
pub open spec fn extension_of(path: Seq<char>) -> Option<Seq<char>> {
    match file_name_of(path) {
        Some(name) => extension_of_name(name),
        None => None,
    }
}

/// Calls `std::path::Path::file_name`. Trusted: the result is the final
/// component that the standard library finds in `path`.
#[verifier::external_body]
pub(crate) fn file_name(path: &str) -> (name: Option<String>)
    ensures
        text_of(name) == file_name_of(path@),
{
    std::path::Path::new(path).file_name().map(|name| name.to_string_lossy().into_owned())
}

/// Calls `std::path::Path::extension`. Trusted: as the standard library
/// documents it, the extension is taken from the final component, is what
/// follows that component's last `.`, and is absent where the component has
/// no `.` or only a leading one.
#[verifier::external_body]
pub(crate) fn extension(path: &str) -> (ext: Option<String>)
    ensures
        text_of(ext) == extension_of(path@),
{
    std::path::Path::new(path).extension().map(|ext| ext.to_string_lossy().into_owned())
}

/// Calls `std::path::Path::parent`. Trusted: the result is the parent that
/// the standard library finds for `path`.
#[verifier::external_body]
pub(crate) fn parent(path: &str) -> (dir: Option<String>)
    ensures
        text_of(dir) == parent_of(path@),
{
    std::path::Path::new(path).parent().map(|dir| dir.to_string_lossy().into_owned())
}

/// Compares two paths with `==` on `std::path::Path`. Trusted: the result is
/// the standard library's verdict on the two texts.
#[verifier::external_body]
pub(crate) fn is_same_path(a: &str, b: &str) -> (same: bool)
    ensures
        same == same_path(a@, b@),
{
    std::path::Path::new(a) == std::path::Path::new(b)
}

} // verus!
