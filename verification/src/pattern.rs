//! Regular expressions over file paths, from the `regex` crate.
use regex::Regex;
use vstd::prelude::*;

verus! {

/// A compiled regular expression of the `regex` crate.
#[verifier::external_type_specification]
#[verifier::external_body]
pub struct ExRegex(regex::Regex);

/// The error of the `regex` crate for a text that it cannot compile.
#[verifier::external_type_specification]
#[verifier::external_body]
pub struct ExRegexError(regex::Error);

/// What `regex::Regex::new` makes of a text: the compiled expression, or `None` for an error.
pub uninterp spec fn regex_compiled(source: Seq<char>) -> Option<Regex>;

/// Whether `regex::Regex::is_match` finds the expression compiled from `source` in `text`.
pub uninterp spec fn regex_is_match(source: Seq<char>, text: Seq<char>) -> bool;

/// What `regex::Regex::replace_all` makes of `text` when each match of the expression compiled
/// from `source` is replaced by `template`, with its `$name` groups filled in.
pub uninterp spec fn regex_replaced(
    source: Seq<char>,
    text: Seq<char>,
    template: Seq<char>,
) -> Seq<char>;

/// Calls `regex::Regex::new`. Trusted: that it depends on the text alone. Which texts are regular
/// expressions, and small enough for the crate's limit on size, is not stated.
#[verifier::external_body]
fn regex_new(source: &str) -> (compiled: Result<Regex, regex::Error>)
    ensures
        match compiled {
            Ok(re) => regex_compiled(source@) == Some(re),
            Err(_) => regex_compiled(source@) is None,
        },
{
    Regex::new(source)
}

/// A regular expression that has been compiled, together with its text. The invariant of the type
/// is that `regex::Regex::new` made the one of the other.
pub struct PathPattern {
    source: String,
    compiled: Regex,
}

impl View for PathPattern {
    type V = Seq<char>;

    /// The text of the regular expression.
    closed spec fn view(&self) -> Seq<char> {
        self.source@
    }
}

impl PathPattern {
    /// The compiled expression.
    pub closed spec fn expression(&self) -> Regex {
        self.compiled
    }

    #[verifier::type_invariant]
    spec fn compiled_from_source(self) -> bool {
        regex_compiled(self.source@) == Some(self.compiled)
    }

    /// Compiles `source`, or gives nothing if it is not a regular expression.
    pub fn compile(source: &str) -> (pattern: Option<PathPattern>)
        ensures
            pattern is Some <==> regex_compiled(source@) is Some,
            pattern matches Some(p) ==> p@ == source@ && regex_compiled(source@) == Some(
                p.expression(),
            ),
    {
        match regex_new(source) {
            Ok(compiled) => Some(PathPattern { source: source.to_string(), compiled }),
            Err(_) => None,
        }
    }

    /// Whether the pattern occurs in `text`. Calls `regex::Regex::is_match`; trusted: that it
    /// depends on the text of the expression and on `text` alone.
    #[verifier::external_body]
    pub(crate) fn is_match(&self, text: &str) -> (found: bool)
        ensures
            found == regex_is_match(self@, text@),
    {
        self.compiled.is_match(text)
    }

    /// `text` with every match replaced by `template`. Calls `regex::Regex::replace_all`; trusted:
    /// that it depends on the text of the expression and on the two arguments alone.
    #[verifier::external_body]
    pub(crate) fn replace_all(&self, text: &str, template: &str) -> (replaced: String)
        ensures
            replaced@ == regex_replaced(self@, text@, template@),
    {
        self.compiled.replace_all(text, template).into_owned()
    }
}

/// What is searched for is the compiled expression, and the text beside it is what a pattern stands
/// for.
proof fn law_pattern_is_searched_for(pattern: PathPattern)
    ensures
        pattern.expression() == pattern.compiled,
        pattern@ == pattern.source@,
{
}

} // verus!
