//! Compiled path patterns. A `Pattern` pairs a matcher compiled by the
//! regex crate with the source text it was built from; once compiled it is
//! immutable, and evaluating it against a path is a pure boolean test.

use vstd::prelude::*;

verus! {

/// Whether the regex crate accepts `source` as a pattern: the result of
/// `regex::Regex::new(source)` being `Ok`, which depends on the source text
/// alone.
pub uninterp spec fn pattern_accepts(source: Seq<char>) -> bool;

/// Whether the matcher compiled from `source` finds a match anywhere in
/// `path`: the result of `regex::Regex::is_match`, which depends on the two
/// texts alone.
pub uninterp spec fn pattern_matches(source: Seq<char>, path: Seq<char>) -> bool;

/// `regex::Regex` as an opaque type, so that a compiled matcher can stand in
/// a `Pattern` field.
#[verifier::external_type_specification]
#[verifier::external_body]
pub struct ExRegex(regex::Regex);

/// `regex::Error` as an opaque type: what `regex::Regex::new` reports for a
/// source it does not accept.
#[verifier::external_type_specification]
#[verifier::external_body]
pub struct ExRegexError(regex::Error);

/// The error `add` reports when a pattern source does not compile.
#[derive(Clone, Copy, Debug, PartialEq, Eq, Structural)]
pub struct PatternCompileError;

/// A compiled matcher over path strings, together with the source text it
/// was built from. Its view is that source text.
pub struct Pattern {
    source: String,
    compiled: regex::Regex,
}

impl View for Pattern {
    type V = Seq<char>;

    closed spec fn view(&self) -> Seq<char> {
        self.source@
    }
}

/// Relies on `regex::Regex::new`: it returns `Ok` exactly when it accepts
/// the source text, and the returned matcher is the one compiled from that
/// text. The `Pattern` keeps the matcher beside the source it came from;
/// this is the type's only constructor.
#[verifier::external_body]
fn regex_compile(source: &str) -> (r: Result<Pattern, regex::Error>)
    ensures
        r is Ok <==> pattern_accepts(source@),
        r matches Ok(p) ==> p@ == source@,
{
    match regex::Regex::new(source) {
        Ok(compiled) => Ok(Pattern { source: source.to_string(), compiled }),
        Err(e) => Err(e),
    }
}

impl Pattern {
    /// Compiles `source` into a pattern, reporting `PatternCompileError`
    /// for a source the matcher's compiler does not accept.
    pub fn compile(source: &str) -> (r: Result<Pattern, PatternCompileError>)
        ensures
            r is Ok <==> pattern_accepts(source@),
            r matches Ok(p) ==> p@ == source@,
    {
        match regex_compile(source) {
            Ok(p) => Ok(p),
            Err(_) => Err(PatternCompileError),
        }
    }

    /// Relies on `regex::Regex::is_match`: its result depends only on the
    /// pattern's source text and on the haystack. `compiled` was built from
    /// `source` by `regex_compile`, the only constructor of this type.
    #[verifier::external_body]
    pub fn matches(&self, path: &str) -> (r: bool)
        ensures
            r == pattern_matches(self@, path@),
    {
        self.compiled.is_match(path)
    }

    /// The source text this pattern was compiled from.
    pub fn source(&self) -> (s: &str)
        ensures
            s@ == self@,
    {
        self.source.as_str()
    }
}

} // verus!
