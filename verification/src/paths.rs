use std::path::Path;
use vstd::prelude::*;

verus! {

/// What `Path::parent` gives for a path, read by the path syntax of the
/// platform the library is built for: the path without its last component,
/// or nothing where the path ends in a root or is empty.
pub uninterp spec fn parent_of(path: Seq<char>) -> Option<Seq<char>>;

/// What `Path::join` gives for a base path and a path to add to it, read by
/// the path syntax of the platform the library is built for.
pub uninterp spec fn joined(base: Seq<char>, added: Seq<char>) -> Seq<char>;

/// The root of the file system.
pub open spec fn root_path() -> Seq<char> {
    "/"@
}

/// The optional text of an optional string.
pub open spec fn text_of(value: Option<String>) -> Option<Seq<char>> {
    match value {
        Some(text) => Some(text@),
        None => None,
    }
}

/// The parent of a path. Calls `Path::parent`, whose result is a function of
/// the path alone. Its documentation gives `None` for a path that ends in a
/// root; of that, only the case of the root itself is stated here.
#[verifier::external_body]
pub(crate) fn path_parent(path: &str) -> (parent: Option<String>)
    ensures
        text_of(parent) == parent_of(path@),
        path@ == root_path() ==> parent is None,
{
    match Path::new(path).parent() {
        Some(parent) => Some(parent.to_string_lossy().into_owned()),
        None => None,
    }
}

/// A path with another joined to it. Calls `Path::join`, whose result is a
/// function of the two paths alone.
#[verifier::external_body]
pub(crate) fn path_join(base: &str, added: &str) -> (whole: String)
    ensures
        whole@ == joined(base@, added@),
{
    Path::new(base).join(added).to_string_lossy().into_owned()
}

/// Whether the path leads to a directory right now. Calls `Path::is_dir`,
/// which asks the file system; nothing is claimed of the answer.
#[verifier::external_body]
pub(crate) fn path_is_dir(path: &str) -> (found: bool) {
    Path::new(path).is_dir()
}

/// Whether the path leads to anything right now. Calls `Path::exists`, which
/// asks the file system; nothing is claimed of the answer.
#[verifier::external_body]
pub(crate) fn path_exists(path: &str) -> (found: bool) {
    Path::new(path).exists()
}

/// Whether the path leads to a regular file right now. Calls `Path::is_file`,
/// which asks the file system; nothing is claimed of the answer.
#[verifier::external_body]
pub(crate) fn path_is_file(path: &str) -> (found: bool) {
    Path::new(path).is_file()
}

/// The canonical form of a path, or the text of the error that kept the file
/// system from giving one. Calls `Path::canonicalize`, which asks the file
/// system; nothing is claimed of the answer.
#[verifier::external_body]
pub(crate) fn path_canonicalize(path: &str) -> (canonical: Result<String, String>) {
    match Path::new(path).canonicalize() {
        Ok(resolved) => Ok(resolved.to_string_lossy().into_owned()),
        Err(error) => Err(error.to_string()),
    }
}

} // verus!
