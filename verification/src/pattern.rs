//! A compiled regular expression paired with the pattern text it was
//! compiled from, so that contracts can speak of the pattern.

use vstd::prelude::*;

verus! {

#[verifier::external_type_specification]
#[verifier::external_body]
pub struct ExRegex(regex::Regex);

/// Whether `pattern` is a valid regular expression (within the engine's
/// default size limit), so that compiling it succeeds.
pub uninterp spec fn regex_ok(pattern: Seq<char>) -> bool;

/// Whether the regular expression `pattern` matches anywhere in `text`.
pub uninterp spec fn regex_match(pattern: Seq<char>, text: Seq<char>) -> bool;

/// A regular expression together with the text it was compiled from.
/// Values exist only for patterns that compiled successfully.
pub struct CompiledPattern {
    pattern: String,
    regex: regex::Regex,
}

impl View for CompiledPattern {
    type V = Seq<char>;

    /// The pattern text this regular expression was compiled from.
    closed spec fn view(&self) -> Seq<char> {
        self.pattern@
    }
}

impl CompiledPattern {
    /// Relies on `regex::Regex::new`: it returns `Ok` exactly when the
    /// pattern is a valid expression within the default size limit, a fact
    /// of the pattern text alone.
    #[verifier::external_body]
    pub(crate) fn compile(pattern: &str) -> (r: Option<CompiledPattern>)
        ensures
            r is Some <==> regex_ok(pattern@),
            r matches Some(cp) ==> cp@ == pattern@,
    {
        match regex::Regex::new(pattern) {
            Ok(regex) => Some(CompiledPattern { pattern: pattern.to_owned(), regex }),
            Err(_) => None,
        }
    }

    /// Relies on `regex::Regex::is_match`: whether a compiled pattern
    /// matches anywhere in a text is a function of the pattern and the
    /// text alone.
    #[verifier::external_body]
    pub(crate) fn is_match(&self, text: &str) -> (r: bool)
        ensures
            r == regex_match(self@, text@),
    {
        self.regex.is_match(text)
    }
}

} // verus!
