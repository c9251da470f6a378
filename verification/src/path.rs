//! Path patterns.
//!
//! A pattern is a regular expression in the syntax of the `regex` crate. It
//! is searched for anywhere in a request path: a pattern that must cover the
//! whole path says so itself, with `^` and `$`.

use vstd::prelude::*;

use regex::Regex;

verus! {

/// A compiled regular expression of the `regex` crate. Verus sees nothing
/// inside it.
#[verifier::external_type_specification]
#[verifier::external_body]
pub struct ExRegex(Regex);

/// The reason for which the `regex` crate refused a pattern. Verus sees
/// nothing inside it.
#[verifier::external_type_specification]
#[verifier::external_body]
pub struct ExRegexError(regex::Error);

/// The pattern text that `re` was compiled from: what `Regex::as_str`
/// returns.
pub uninterp spec fn regex_source(re: Regex) -> Seq<char>;

/// Whether `re` has a match anywhere in `haystack`: what `Regex::is_match`
/// returns.
pub uninterp spec fn regex_accepts(re: Regex, haystack: Seq<char>) -> bool;

/// Whether the regular expression that `Regex::new` compiles from `pattern`
/// has a match anywhere in `haystack`.
pub uninterp spec fn pattern_matches(pattern: Seq<char>, haystack: Seq<char>) -> bool;

/// `Regex::new` compiles a pattern, or refuses it. Nothing is claimed about
/// which patterns it accepts. A regular expression that it returns keeps the
/// pattern text it was given, unchanged, and what it matches depends on
/// that text alone.
pub assume_specification[ Regex::new ](re: &str) -> (compiled: Result<Regex, regex::Error>)
    ensures
        compiled matches Ok(regex) ==> {
            &&& regex_source(regex) == re@
            &&& forall|haystack: Seq<char>| #[trigger]
                regex_accepts(regex, haystack) == pattern_matches(re@, haystack)
        },
;

/// `Regex::is_match` says whether the regular expression has a match
/// anywhere in the haystack.
pub assume_specification[ Regex::is_match ](re: &Regex, haystack: &str) -> (found: bool)
    ensures
        found == regex_accepts(*re, haystack@),
;

/// `Regex::as_str` returns the pattern text that the regular expression was
/// compiled from.
pub assume_specification<'a>[ Regex::as_str ](re: &'a Regex) -> (source: &'a str)
    ensures
        source@ == regex_source(*re),
;

/// Cloning a `Regex` gives a regular expression with the same pattern text
/// that matches the same haystacks.
pub assume_specification[ <Regex as Clone>::clone ](re: &Regex) -> (copy: Regex)
    ensures
        regex_source(copy) == regex_source(*re),
        forall|haystack: Seq<char>| #[trigger]
            regex_accepts(copy, haystack) == regex_accepts(*re, haystack),
;

/// A pattern that the `regex` crate refused.
#[derive(Debug)]
pub struct PatternError {
    /// The pattern as it was given.
    pub pattern: String,
}

impl Clone for PatternError {
    fn clone(&self) -> (copy: PatternError)
        ensures
            copy.pattern@ == self.pattern@,
    {
        PatternError { pattern: self.pattern.clone() }
    }
}

/// A path pattern, compiled once and matched against request paths.
///
/// The view of a `Path` is the text of its pattern.
#[derive(Debug)]
pub struct Path {
    pub matcher: Regex,
}

impl View for Path {
    type V = Seq<char>;

    open spec fn view(&self) -> Seq<char> {
        regex_source(self.matcher)
    }
}

impl Clone for Path {
    fn clone(&self) -> (copy: Path)
        ensures
            self.same_as(copy),
    {
        Path { matcher: self.matcher.clone() }
    }
}

impl Path {
    /// Whether the pattern has a match anywhere in `path`.
    pub open spec fn matches(&self, path: Seq<char>) -> bool {
        regex_accepts(self.matcher, path)
    }

    /// Whether this is the pattern written as `pattern`: it has that text,
    /// and it matches what that text says.
    pub open spec fn is_compiled_from(&self, pattern: Seq<char>) -> bool {
        &&& self@ == pattern
        &&& forall|path: Seq<char>| #[trigger] self.matches(path) == pattern_matches(pattern, path)
    }

    /// Whether `other` has the same text and matches the same paths.
    pub open spec fn same_as(&self, other: Path) -> bool {
        &&& other@ == self@
        &&& forall|path: Seq<char>| #[trigger] other.matches(path) == self.matches(path)
    }

    /// Makes a `Path` of what compiling `pattern` gave: the compiled
    /// expression as it is, or an error that names the pattern.
    pub fn from_compiled(pattern: &str, compiled: Result<Regex, regex::Error>) -> (res: Result<
        Path,
        PatternError,
    >)
        ensures
            match compiled {
                Ok(regex) => res == Ok::<Path, PatternError>(Path { matcher: regex }),
                Err(_) => res matches Err(e) && e.pattern@ == pattern@,
            },
    {
        match compiled {
            Ok(matcher) => Ok(Path { matcher }),
            Err(_) => Err(PatternError { pattern: pattern.to_owned() }),
        }
    }

    /// Compiles `pattern`. The pattern is taken as it is written: nothing is
    /// added to it, so it is searched for anywhere in a path unless it
    /// anchors itself. A pattern that does not compile gives an error that
    /// names it.
    pub fn new(pattern: &str) -> (res: Result<Path, PatternError>)
        ensures
            match res {
                Ok(path) => path.is_compiled_from(pattern@),
                Err(e) => e.pattern@ == pattern@,
            },
    {
        Self::from_compiled(pattern, Regex::new(pattern))
    }

    /// Whether the pattern has a match anywhere in `path`.
    pub fn is_match(&self, path: &str) -> (found: bool)
        ensures
            found == self.matches(path@),
    {
        self.matcher.is_match(path)
    }

    /// The text of the pattern.
    pub fn as_str(&self) -> (pattern: &str)
        ensures
            pattern@ == self@,
    {
        self.matcher.as_str()
    }
}

} // verus!
