//! Regular expressions as settings hold them.

use vstd::prelude::*;

verus! {

/// Whether `regex::Regex::new` accepts the pattern.
pub uninterp spec fn regex_compiles(pattern: Seq<char>) -> bool;

/// Whether the regular expression compiled from `pattern` matches anywhere
/// in `haystack`.
pub uninterp spec fn regex_matches(pattern: Seq<char>, haystack: Seq<char>) -> bool;

/// `regex::Regex::new`, for its verdict only: whether the pattern is a
/// regular expression within the default size limit.
#[verifier::external_body]
fn pattern_compiles(pattern: &str) -> (accepted: bool)
    ensures
        accepted == regex_compiles(pattern@),
{
    regex::Regex::new(pattern).is_ok()
}

/// `regex::Regex::is_match` on the expression compiled from `pattern`:
/// whether there is a match anywhere in the haystack.
#[verifier::external_body]
fn pattern_matches(pattern: &str, haystack: &str) -> (found: bool)
    requires
        regex_compiles(pattern@),
    ensures
        found == regex_matches(pattern@, haystack@),
{
    match regex::Regex::new(pattern) {
        Ok(compiled) => compiled.is_match(haystack),
        Err(_) => false,
    }
}

/// A pattern that is known to compile.
#[derive(Debug)]
pub struct Regex {
    pattern: String,
}

impl View for Regex {
    type V = Seq<char>;

    /// The pattern.
    closed spec fn view(&self) -> Seq<char> {
        self.pattern@
    }
}

impl Regex {
    #[verifier::type_invariant]
    spec fn inv(self) -> bool {
        regex_compiles(self.pattern@)
    }

    /// The regular expression of this pattern, unless the pattern is not one.
    pub fn new(pattern: &str) -> (regex: Option<Regex>)
        ensures
            regex.is_some() == regex_compiles(pattern@),
            regex matches Some(r) ==> r@ == pattern@,
    {
        if pattern_compiles(pattern) {
            Some(Regex { pattern: pattern.to_owned() })
        } else {
            None
        }
    }

    /// The pattern as it was given.
    pub fn as_str(&self) -> (pattern: &str)
        ensures
            pattern@ == self@,
    {
        self.pattern.as_str()
    }

    /// Whether the expression matches anywhere in `haystack`.
    pub fn is_match(&self, haystack: &str) -> (found: bool)
        ensures
            found == regex_matches(self@, haystack@),
    {
        proof {
            use_type_invariant(self);
        }
        pattern_matches(self.pattern.as_str(), haystack)
    }
}

impl Clone for Regex {
    fn clone(&self) -> (copy: Self)
        ensures
            copy@ == self@,
    {
        proof {
            use_type_invariant(self);
        }
        Regex { pattern: self.pattern.clone() }
    }
}

} // verus!
