//! Regular expressions in the configuration, compared and hashed by their
//! pattern.

use vstd::prelude::*;
use regex::Regex;

verus! {

#[verifier::external_type_specification]
#[verifier::external_body]
pub struct ExRegex(Regex);

#[verifier::external_type_specification]
#[verifier::external_body]
pub struct ExRegexError(regex::Error);

/// `Clone` for `regex::Regex`. Nothing is claimed of the copy: the compiled
/// program is opaque here.
pub assume_specification[ <Regex as Clone>::clone ](re: &Regex) -> Regex;

/// `Hash` for `String`, which feeds the string's bytes to the hasher. Nothing
/// is claimed: the hasher's state is opaque here.
pub assume_specification<H: core::hash::Hasher>[ <String as core::hash::Hash>::hash::<H> ](
    s: &String,
    state: &mut H,
);

/// Whether `regex::Regex::new` accepts `pattern`: it is valid regex syntax
/// and the compiled program stays within the default size limit.
pub uninterp spec fn regex_compiles(pattern: Seq<char>) -> bool;

/// Whether the regex compiled from `pattern` matches somewhere in
/// `haystack`.
pub uninterp spec fn regex_matches(pattern: Seq<char>, haystack: Seq<char>) -> bool;

/// Compiles `pattern` with `regex::Regex::new`. The contract claims that the
/// outcome depends on the pattern alone; which patterns compile is left to
/// the name [`regex_compiles`].
#[verifier::external_body]
fn compile_regex(pattern: &str) -> (r: Result<Regex, regex::Error>)
    ensures
        r is Ok <==> regex_compiles(pattern@),
{
    Regex::new(pattern)
}

/// A compiled regular expression together with its pattern.
#[derive(Debug, Clone)]
pub struct RegexCfg {
    pattern: String,
    regex: Regex,
}

impl View for RegexCfg {
    type V = Seq<char>;

    /// The pattern the expression was compiled from.
    closed spec fn view(&self) -> Seq<char> {
        self.pattern@
    }
}

impl RegexCfg {
    /// Compiles `pattern`; the error is `regex::Regex::new`'s.
    pub fn new(pattern: &str) -> (r: Result<RegexCfg, regex::Error>)
        ensures
            r is Ok <==> regex_compiles(pattern@),
            r matches Ok(re) ==> re@ == pattern@,
    {
        match compile_regex(pattern) {
            Ok(regex) => Ok(RegexCfg { pattern: pattern.to_owned(), regex }),
            Err(e) => Err(e),
        }
    }

    /// The pattern the expression was compiled from.
    pub fn as_str(&self) -> (s: &str)
        ensures
            s@ == self@,
    {
        self.pattern.as_str()
    }

    /// Whether the expression matches somewhere in `haystack`, by
    /// `regex::Regex::is_match` on the compiled expression. The contract
    /// claims only that the answer is a function of the pattern and the
    /// haystack.
    #[verifier::external_body]
    pub(crate) fn is_match(&self, haystack: &str) -> (b: bool)
        ensures
            b == regex_matches(self@, haystack@),
    {
        self.regex.is_match(haystack)
    }
}

impl PartialEq for RegexCfg {
    fn eq(&self, other: &Self) -> (b: bool) {
        self.pattern == other.pattern
    }
}

impl vstd::std_specs::cmp::PartialEqSpecImpl for RegexCfg {
    open spec fn obeys_eq_spec() -> bool {
        true
    }

    open spec fn eq_spec(&self, other: &Self) -> bool {
        self@ == other@
    }
}

impl Eq for RegexCfg {}

impl core::hash::Hash for RegexCfg {
    fn hash<H: core::hash::Hasher>(&self, state: &mut H) {
        self.pattern.hash(state);
    }
}

} // verus!
