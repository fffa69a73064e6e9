//! What the import reads off a path: extension, file name, enclosing folder
//! and depth. Paths are text here; their parts are taken by `std::path`.

use vstd::prelude::*;

verus! {

/// The extension of the path's file name as `std::path` takes it, if it has
/// one.
pub uninterp spec fn extension_of(path: Seq<char>) -> Option<Seq<char>>;

/// The last component of the path as `std::path` takes it, if it has one.
pub uninterp spec fn file_name_of(path: Seq<char>) -> Option<Seq<char>>;

/// The path without its last component as `std::path` takes it, if there is
/// such a path.
pub uninterp spec fn parent_of(path: Seq<char>) -> Option<Seq<char>>;

/// How many paths `std::path` counts from the path up to its outermost
/// ancestor, the path itself included.
pub uninterp spec fn ancestor_count(path: Seq<char>) -> nat;

/// The extension that a destination takes over from `path`: its own, as it
/// is written, or nothing.
pub open spec fn extension_text(path: Seq<char>) -> Seq<char> {
    match extension_of(path) {
        Some(ext) => ext,
        None => Seq::empty(),
    }
}

/// The name of the folder that holds the file at `path`.
pub open spec fn folder_name_of(path: Seq<char>) -> Option<Seq<char>> {
    match parent_of(path) {
        Some(folder) => file_name_of(folder),
        None => None,
    }
}

/// How many paths `std::path` counts above the path: those from its parent
/// up, none where it has no parent.
pub open spec fn ancestors_above(path: Seq<char>) -> nat {
    match parent_of(path) {
        Some(folder) => ancestor_count(folder),
        None => 0,
    }
}

/// How many folders lie between `root` and the file at `path`; zero or less
/// for a file directly inside `root`.
pub open spec fn depth_below(path: Seq<char>, root: Seq<char>) -> int {
    ancestor_count(path) - 1 - ancestor_count(root)
}

/// The extension of `path`, case kept; empty where it has none.
pub fn extension(path: &str) -> (ext: String)
    ensures
        ext@ == extension_text(path@),
{
    match path_extension(path) {
        Some(ext) => ext,
        None => String::new(),
    }
}

/// The last component of `path`.
pub fn file_name(path: &str) -> (name: Option<String>)
    ensures
        crate::exif::text_of(name) == file_name_of(path@),
{
    path_file_name(path)
}

/// The name of the folder that holds the file at `path`.
pub fn folder_name(path: &str) -> (name: Option<String>)
    ensures
        crate::exif::text_of(name) == folder_name_of(path@),
{
    match path_parent(path) {
        Some(folder) => path_file_name(folder.as_str()),
        None => None,
    }
}

/// The path without its last component: the folder to create before a
/// file is copied to `path`.
pub fn parent(path: &str) -> (folder: Option<String>)
    ensures
        crate::exif::text_of(folder) == parent_of(path@),
{
    path_parent(path)
}

/// Whether the file at `path` lies in a folder below `root`, not directly
/// inside it.
pub fn is_nested(path: &str, root: &str) -> (nested: bool)
    ensures
        nested == (depth_below(path@, root@) > 0),
        parent_of(path@) == Some(root@) ==> !nested,
{
    let file: usize = path_ancestor_count(path);
    let base: usize = path_ancestor_count(root);
    file - 1 > base
}

/// Calls `Path::extension` of std. Believed of it: the result depends on the
/// path's text alone.
#[verifier::external_body]
fn path_extension(path: &str) -> (ext: Option<String>)
    ensures
        crate::exif::text_of(ext) == extension_of(path@),
{
    match std::path::Path::new(path).extension() {
        Some(ext) => Some(ext.to_string_lossy().into_owned()),
        None => None,
    }
}

/// Calls `Path::file_name` of std. Believed of it: the result depends on the
/// path's text alone.
#[verifier::external_body]
fn path_file_name(path: &str) -> (name: Option<String>)
    ensures
        crate::exif::text_of(name) == file_name_of(path@),
{
    match std::path::Path::new(path).file_name() {
        Some(name) => Some(name.to_string_lossy().into_owned()),
        None => None,
    }
}

/// Calls `Path::parent` of std. Believed of it: the result depends on the
/// path's text alone.
#[verifier::external_body]
fn path_parent(path: &str) -> (folder: Option<String>)
    ensures
        crate::exif::text_of(folder) == parent_of(path@),
{
    match std::path::Path::new(path).parent() {
        Some(folder) => Some(folder.to_string_lossy().into_owned()),
        None => None,
    }
}

/// Calls `Path::ancestors` of std and counts what it yields. Believed of it:
/// the count depends on the path's text alone, and what is yielded is the
/// path itself and then what is yielded for its parent, if it has one.
#[verifier::external_body]
fn path_ancestor_count(path: &str) -> (count: usize)
    ensures
        count == ancestor_count(path@),
        count == 1 + ancestors_above(path@),
{
    std::path::Path::new(path).ancestors().count()
}

} // verus!
