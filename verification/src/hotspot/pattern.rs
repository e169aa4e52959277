//! Regular expressions, compiled and searched by the `regex` crate.

use vstd::prelude::*;

verus! {

#[verifier::external_type_specification]
#[verifier::external_body]
pub struct ExRegex(regex::Regex);

#[verifier::external_type_specification]
#[verifier::external_body]
pub struct ExRegexError(regex::Error);

/// Whether `regex::Regex::new` compiles the pattern.
pub uninterp spec fn regex_accepts(pattern: Seq<char>) -> bool;

/// Whether the regular expression compiled from the pattern matches
/// anywhere in the text, as `regex::Regex::is_match` tells.
pub uninterp spec fn regex_matches(pattern: Seq<char>, text: Seq<char>) -> bool;

/// A compiled regular expression, together with the pattern it was compiled
/// from. Only [`compile`] makes one, so the two always belong together.
pub struct Pattern {
    compiled: regex::Regex,
    source: String,
}

impl View for Pattern {
    type V = Seq<char>;

    closed spec fn view(&self) -> Seq<char> {
        self.source@
    }
}

/// `regex::Regex::new`: compiles the pattern, or says why it cannot be
/// compiled. Whether a pattern compiles depends on the pattern alone; what
/// comes back on success stands for that pattern.
#[verifier::external_body]
pub(crate) fn compile(pattern: &str) -> (compiled: Result<Pattern, regex::Error>)
    ensures
        match compiled {
            Ok(compiled) => regex_accepts(pattern@) && compiled@ == pattern@,
            Err(_) => !regex_accepts(pattern@),
        },
{
    match regex::Regex::new(pattern) {
        Ok(compiled) => Ok(Pattern { compiled, source: pattern.to_owned() }),
        Err(error) => Err(error),
    }
}

/// `regex::Regex::is_match`: whether the expression matches anywhere in the
/// text. The answer depends on the pattern and the text alone.
#[verifier::external_body]
pub(crate) fn is_match(pattern: &Pattern, text: &str) -> (found: bool)
    ensures
        found == regex_matches(pattern@, text@),
{
    pattern.compiled.is_match(text)
}

} // verus!
