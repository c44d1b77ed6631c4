use vstd::prelude::*;

verus! {

#[verifier::external_type_specification]
#[verifier::external_body]
pub struct ExBytesRegex(regex::bytes::Regex);

/// Whether `regex::bytes::Regex::new` accepts `pattern` (syntax, and the
/// crate's default size limit). Compiling depends on the pattern alone.
pub uninterp spec fn regex_compiles(pattern: Seq<char>) -> bool;

/// Whether a regex compiled from `pattern` finds a match anywhere in
/// `haystack`, as `regex::bytes::Regex::is_match` decides it.
pub uninterp spec fn regex_matches(pattern: Seq<char>, haystack: Seq<u8>) -> bool;

/// The text that `regex::Error`'s `Display` writes for the error that
/// `regex::bytes::Regex::new` gives for `pattern` (it depends on the
/// pattern alone).
pub uninterp spec fn regex_error_text(pattern: Seq<char>) -> Seq<char>;

/// A regex together with the pattern it was compiled from. Its fields are
/// private to this module, where only `compile_bytes_regex` makes one, so
/// the regex is always the one compiled from `source`.
pub struct CompiledPattern {
    regex: regex::bytes::Regex,
    source: String,
}

impl CompiledPattern {
    /// The pattern that the regex was compiled from.
    pub closed spec fn source(&self) -> Seq<char> {
        self.source@
    }

    /// Calls `regex::bytes::Regex::is_match` on the bytes. Trusted: the
    /// answer is `regex_matches` of the pattern that the regex was compiled
    /// from.
    #[verifier::external_body]
    pub(crate) fn is_match(&self, file_name: &[u8]) -> (found: bool)
        ensures
            found == regex_matches(self.source(), file_name@),
    {
        self.regex.is_match(file_name)
    }
}

/// Calls `regex::bytes::Regex::new` and keeps the regex with a copy of its
/// pattern (`str::to_string`), turning an error into its text with
/// `to_string`. Trusted: it returns `Ok` exactly when `regex_compiles` holds
/// of the pattern; the kept pattern is the pattern itself; the error's text
/// is `regex_error_text` of it.
#[verifier::external_body]
pub(crate) fn compile_bytes_regex(pattern: &str) -> (compiled: Result<CompiledPattern, String>)
    ensures
        compiled is Ok <==> regex_compiles(pattern@),
        compiled matches Ok(c) ==> c.source() == pattern@,
        compiled matches Err(text) ==> text@ == regex_error_text(pattern@),
{
    match regex::bytes::Regex::new(pattern) {
        Ok(regex) => Ok(CompiledPattern { regex, source: pattern.to_string() }),
        Err(error) => Err(error.to_string()),
    }
}

} // verus!
