use vstd::prelude::*;

use crate::compiled::{compile_bytes_regex, regex_compiles, regex_error_text, regex_matches, CompiledPattern};
use crate::error::SearchError;

verus! {

/// A compiled file-name pattern: a search tries it on each file name.
pub struct FilenameMatcher {
    compiled: CompiledPattern,
}

impl FilenameMatcher {
    /// The pattern that the matcher was compiled from.
    pub closed spec fn pattern(&self) -> Seq<char> {
        self.compiled.source()
    }

    /// Compiles `pattern`, unchanged; an invalid pattern gives
    /// `InvalidPattern`.
    pub fn new(pattern: &str) -> (matcher: Result<FilenameMatcher, SearchError>)
        ensures
            matcher is Ok <==> regex_compiles(pattern@),
            matcher matches Ok(m) ==> m.pattern() == pattern@,
            matcher matches Err(e) ==> (e matches SearchError::InvalidPattern { detail }
                && detail@ == regex_error_text(pattern@)),
    {
        match compile_bytes_regex(pattern) {
            Ok(compiled) => Ok(FilenameMatcher { compiled }),
            Err(detail) => Err(SearchError::InvalidPattern { detail }),
        }
    }

    /// Whether the pattern finds a match anywhere in the file name's bytes.
    pub(crate) fn is_match(&self, file_name: &[u8]) -> (found: bool)
        ensures
            found == regex_matches(self.pattern(), file_name@),
    {
        self.compiled.is_match(file_name)
    }
}

} // verus!
