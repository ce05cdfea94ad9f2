use vstd::prelude::*;

verus! {

/// Whether `regex::Regex::new` accepts a pattern text; this is a function of
/// the text alone.
pub uninterp spec fn regex_valid(pat: Seq<char>) -> bool;

/// Whether the regular expression compiled from `pat` matches `text`; this is
/// a function of the two texts alone.
pub uninterp spec fn regex_match(pat: Seq<char>, text: Seq<char>) -> bool;

#[verifier::external_type_specification]
#[verifier::external_body]
pub struct ExRegex(regex::Regex);

#[verifier::external_type_specification]
#[verifier::external_body]
pub struct ExRegexError(regex::Error);

/// A compiled pattern, kept together with the text it was compiled from.
#[derive(Debug)]
pub struct Pattern {
    source: String,
    compiled: regex::Regex,
}

/// Relies on regex::Regex::new: whether a pattern text compiles is a function
/// of that text alone.
#[verifier::external_body]
fn regex_new(pat: &str) -> (r: Result<regex::Regex, regex::Error>)
    ensures
        r is Ok <==> regex_valid(pat@),
{
    regex::Regex::new(pat)
}

/// Relies on regex::Regex::is_match: the result is a function of the pattern
/// text and the haystack alone.  The contract speaks of `source` because every
/// `Pattern` pairs a compiled regex with the text it came from
/// (`Pattern::compile` is the only constructor).
#[verifier::external_body]
fn regex_is_match(p: &Pattern, text: &str) -> (b: bool)
    ensures
        b == regex_match(p.source@, text@),
{
    p.compiled.is_match(text)
}

impl View for Pattern {
    type V = Seq<char>;

    /// A pattern is abstracted by the text it was compiled from.
    closed spec fn view(&self) -> Seq<char> {
        self.source@
    }
}

impl Pattern {
    /// Compile a pattern; this fails exactly on syntactically invalid pattern
    /// text.
    pub fn compile(pat: &str) -> (r: Result<Pattern, regex::Error>)
        ensures
            r is Ok <==> regex_valid(pat@),
            r matches Ok(p) ==> p@ == pat@,
    {
        match regex_new(pat) {
            Ok(compiled) => Ok(Pattern { source: pat.to_owned(), compiled }),
            Err(e) => Err(e),
        }
    }

    /// Does this pattern match the given text?
    pub fn is_match(&self, text: &str) -> (b: bool)
        ensures
            b == regex_match(self@, text@),
    {
        regex_is_match(self, text)
    }
}

} // verus!
