use std::path::PathBuf;
use vstd::prelude::*;
use vstd::string::StringExecFns;

use crate::found::{path_display, path_text};

verus! {

/// Why a search stopped without a list of files.
#[derive(Debug)]
pub enum SearchError {
    /// The pattern is not a regular expression that the `regex` crate
    /// accepts; `detail` is that crate's description of the problem.
    InvalidPattern { detail: String },
    /// The directory walk reported a failure at `path`; `detail` is the
    /// walk's description of it.
    WalkFailed { path: PathBuf, detail: String },
    /// The walk reported more entries than a `u64` counts.
    TooManyEntries,
}

/// The text that heads the error for an invalid pattern.
pub open spec fn invalid_pattern_text() -> Seq<char> {
    "Invalid regex pattern"@
}

/// The text that heads the error for a failed walk, before the path.
pub open spec fn walk_failed_prefix() -> Seq<char> {
    "Failed to walk "@
}

/// The text of the error for a walk that reported too many entries.
pub open spec fn too_many_entries_text() -> Seq<char> {
    "Too many directory entries"@
}

impl SearchError {
    /// The one-line description of the error: "Invalid regex pattern" for a
    /// pattern that does not compile, "Failed to walk " followed by the
    /// displayed path for a walk failure.
    pub fn message(&self) -> (text: String)
        ensures
            self is InvalidPattern ==> text@ == invalid_pattern_text(),
            self matches SearchError::WalkFailed { path, .. } ==> text@ == walk_failed_prefix() + path_text(
                *path,
            ),
            self is TooManyEntries ==> text@ == too_many_entries_text(),
    {
        match self {
            SearchError::InvalidPattern { .. } => String::from_str("Invalid regex pattern"),
            SearchError::WalkFailed { path, .. } => {
                let prefix = String::from_str("Failed to walk ");
                let shown = path_display(path);
                prefix.concat(shown.as_str())
            },
            SearchError::TooManyEntries => String::from_str("Too many directory entries"),
        }
    }

    /// The description of the underlying failure, where there is one.
    pub fn detail(&self) -> (detail: Option<String>)
        ensures
            match self {
                SearchError::InvalidPattern { detail: d } => detail == Some(*d),
                SearchError::WalkFailed { detail: d, .. } => detail == Some(*d),
                SearchError::TooManyEntries => detail is None,
            },
    {
        match self {
            SearchError::InvalidPattern { detail } => Some(detail.clone()),
            SearchError::WalkFailed { detail, .. } => Some(detail.clone()),
            SearchError::TooManyEntries => None,
        }
    }
}

} // verus!
