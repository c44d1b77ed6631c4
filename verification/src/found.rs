use std::path::PathBuf;
use vstd::prelude::*;

verus! {

/// Paths are carried through the library unchanged; nothing in it looks
/// inside one.
#[verifier::external_type_specification]
#[verifier::external_body]
pub struct ExPathBuf(PathBuf);

/// `PathBuf::clone` makes a copy of the path: the copy is equal to the
/// original.
pub assume_specification[ <PathBuf as Clone>::clone ](path: &PathBuf) -> (copy: PathBuf)
    ensures
        copy == *path,
;

/// A file found by the search.
#[derive(Debug, Clone, PartialEq, Eq)]
pub struct FoundFile {
    pub path: PathBuf,
}

impl FoundFile {
    /// Creates a `FoundFile` for the given path.
    pub fn new(path: PathBuf) -> (found: FoundFile)
        ensures
            found.path == path,
    {
        FoundFile { path }
    }
}

/// Search options that control filesystem traversal behavior.
#[derive(Debug, Clone, Copy, PartialEq, Eq)]
pub struct SearchOptions {
    pub follow_links: bool,
}

impl Default for SearchOptions {
    /// By default symbolic links to directories are not followed.
    fn default() -> (options: SearchOptions)
        ensures
            !options.follow_links,
    {
        SearchOptions { follow_links: false }
    }
}

/// The text that `Path::display` writes for `path` (its bytes as UTF-8,
/// with any invalid sequence replaced); it depends on the path alone.
pub uninterp spec fn path_text(path: PathBuf) -> Seq<char>;

/// Formats the path with `Path::display`. Trusted: the text is `path_text`
/// of the path.
#[verifier::external_body]
pub(crate) fn path_display(path: &PathBuf) -> (text: String)
    ensures
        text@ == path_text(*path),
{
    format!("{}", path.display())
}

} // verus!
