//! The search pattern: a regular expression, compiled once and then applied
//! to one line at a time.

use vstd::prelude::*;
use vstd::string::*;

use crate::text::slices_at;

verus! {

/// `regex::Regex`, a compiled regular expression. Nothing is known of what
/// it holds.
#[verifier::external_type_specification]
#[verifier::external_body]
pub struct ExRegex(regex::Regex);

/// `regex::Error`, the reason why a text did not compile. Nothing is known
/// of what it holds.
#[verifier::external_type_specification]
#[verifier::external_body]
pub struct ExRegexError(regex::Error);

/// What `regex::Regex::find` returns for the regular expression that
/// `regex::Regex::new` compiles from `pattern`, searched for in `text`: the
/// byte offsets at which the first match starts and ends, or `None` where
/// nothing in `text` matches.
pub uninterp spec fn first_match(pattern: Seq<char>, text: Seq<char>) -> Option<(int, int)>;

/// A compiled search pattern. Its view is the text that it was compiled from.
#[derive(Debug)]
pub struct Pattern {
    source: String,
    compiled: regex::Regex,
}

/// Why a text is no pattern.
#[derive(Debug, PartialEq, Eq)]
pub struct PatternError {
    /// The compiler's own account of what is wrong with the text.
    pub message: String,
}

impl View for Pattern {
    type V = Seq<char>;

    closed spec fn view(&self) -> Seq<char> {
        self.source@
    }
}

/// `regex::Regex::new`: the compiled form of `source`, or the reason why
/// there is none (a syntax error, or a program over the size limit).
#[verifier::external_body]
fn compile(source: &str) -> (r: Result<regex::Regex, regex::Error>) {
    regex::Regex::new(source)
}

/// The error's text, as its `Display` gives it.
#[verifier::external_body]
fn describe(error: &regex::Error) -> (text: String) {
    error.to_string()
}

/// `regex::Regex::find` on the compiled form of a pattern, which `Pattern::new`
/// alone makes and always from the pattern's own source: the offsets of the
/// first match. They lie within `text` in order and on character boundaries.
#[verifier::external_body]
pub(crate) fn find(pattern: &Pattern, text: &str) -> (found: Option<(usize, usize)>)
    ensures
        found matches Some(m) ==> slices_at(text@, m.0 as int, m.1 as int),
        match found {
            Some(m) => first_match(pattern@, text@) == Some((m.0 as int, m.1 as int)),
            None => first_match(pattern@, text@) is None,
        },
{
    pattern.compiled.find(text).map(|m| (m.start(), m.end()))
}

impl Pattern {
    /// Compiles `source`. Whether it compiles is for the regular-expression
    /// compiler to say, and it may say otherwise on another machine, where
    /// its size limit is reached sooner or later; a pattern that does compile
    /// stands for `source`.
    pub fn new(source: &str) -> (r: Result<Pattern, PatternError>)
        ensures
            r matches Ok(p) ==> p@ == source@,
    {
        Pattern::of_outcome(source, compile(source))
    }

    /// What the compiler's outcome for `source` comes to: a pattern that
    /// stands for `source` where it compiled, and the compiler's account of
    /// the error where it did not. `outcome` is to be what the compiler made
    /// of `source`, and of nothing else: this is why the function is private.
    fn of_outcome(source: &str, outcome: Result<regex::Regex, regex::Error>) -> (r: Result<
        Pattern,
        PatternError,
    >)
        ensures
            r is Ok <==> outcome is Ok,
            r matches Ok(p) ==> p@ == source@,
    {
        match outcome {
            Ok(compiled) => Ok(Pattern { source: String::from_str(source), compiled }),
            Err(error) => Err(PatternError { message: describe(&error) }),
        }
    }

    /// The text that the pattern was compiled from.
    pub fn as_str(&self) -> (s: &str)
        ensures
            s@ == self@,
    {
        self.source.as_str()
    }
}

} // verus!
