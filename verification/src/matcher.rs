//! The classifier's pattern: compiled and validated exactly once,
//! before any task is dispatched, then shared read-only by every task.

use vstd::prelude::*;

use crate::cli::Cli;

verus! {

#[verifier::external_type_specification]
#[verifier::external_body]
pub struct ExBytesRegex(regex::bytes::Regex);

/// Whether a pattern compiles under the given case-insensitivity flag:
/// a function of the pattern text and the flag alone.
pub uninterp spec fn pattern_ok(pattern: Seq<char>, case_insensitive: bool) -> bool;

/// Whether the pattern matches anywhere within the content (substring
/// search, no full-content anchoring): a function of the pattern, the
/// flag and the content alone.
pub uninterp spec fn regex_match(
    pattern: Seq<char>,
    case_insensitive: bool,
    content: Seq<u8>,
) -> bool;

/// The user-supplied pattern did not compile: a single fatal startup
/// condition, never a per-task failure.
#[derive(Clone, Copy, Debug, PartialEq, Eq, Structural)]
pub struct PatternError;

/// A compiled pattern together with the text and flag it was built
/// from. The only constructor is `new`, so the compiled part always
/// belongs to the recorded pattern and flag.
pub struct Matcher {
    pattern: String,
    case_insensitive: bool,
    re: regex::bytes::Regex,
}

impl Matcher {
    /// The pattern text this matcher was compiled from.
    pub closed spec fn spec_pattern(&self) -> Seq<char> {
        self.pattern@
    }

    /// Whether this matcher ignores case.
    pub closed spec fn spec_ci(&self) -> bool {
        self.case_insensitive
    }

    /// Relies on `regex::bytes::RegexBuilder`: `new`, `case_insensitive`
    /// and `build`, whose success and result depend only on the pattern
    /// text and the flag.
    #[verifier::external_body]
    pub fn new(pattern: &str, case_insensitive: bool) -> (r: Result<Matcher, PatternError>)
        ensures
            r is Ok <==> pattern_ok(pattern@, case_insensitive),
            (match r {
                Result::Ok(m) => m.spec_pattern() == pattern@ && m.spec_ci() == case_insensitive,
                Result::Err(e) => e == PatternError,
            }),
    {
        let mut builder = regex::bytes::RegexBuilder::new(pattern);
        builder.case_insensitive(case_insensitive);
        match builder.build() {
            Ok(re) => Ok(Matcher { pattern: pattern.to_owned(), case_insensitive, re }),
            Err(_) => Err(PatternError),
        }
    }

    /// Relies on `regex::bytes::Regex::is_match`: whether the compiled
    /// pattern matches anywhere in the haystack, a function of the
    /// pattern, the flag and the haystack alone.
    #[verifier::external_body]
    pub fn is_match(&self, content: &[u8]) -> (r: bool)
        ensures
            r == regex_match(self.spec_pattern(), self.spec_ci(), content@),
    {
        self.re.is_match(content)
    }
}

/// Compiles and validates the run's pattern exactly once, before any
/// task is dispatched: an invalid pattern fails the whole run here,
/// never inside a task.
pub fn compile_pattern(options: &Cli) -> (r: Result<Matcher, PatternError>)
    ensures
        r is Ok <==> pattern_ok(options.regex@, options.case_insensitive),
        (match r {
            Result::Ok(m) => m.spec_pattern() == options.regex@ && m.spec_ci()
                == options.case_insensitive,
            Result::Err(e) => e == PatternError,
        }),
{
    Matcher::new(options.regex.as_str(), options.case_insensitive)
}

} // verus!
