//! The substitution engine: compile a pattern, replace every
//! non-overlapping leftmost match in a text.
//!
//! The regular-expression dialect itself belongs to the `regex` crate;
//! what it computes is named by uninterpreted spec functions, and each
//! call into it stands behind a trusted wrapper whose contract states
//! what the crate's documentation promises.

use vstd::prelude::*;
use crate::error::QrepError;

verus! {

/// Whether `regex::Regex::new` accepts `p`: `p` is a syntactically valid
/// pattern whose compiled form fits the default size limit. That outcome
/// depends on the pattern string alone.
pub uninterp spec fn pattern_valid(p: Seq<char>) -> bool;

/// Whether the pattern `p` matches anywhere in the text, as
/// `regex::Regex::is_match` decides it: a function of pattern and text alone.
pub uninterp spec fn has_match(p: Seq<char>, text: Seq<char>) -> bool;

/// The text with every non-overlapping leftmost match of `p` replaced by
/// `rep` (capture-group references in `rep` substituted), as
/// `regex::Regex::replace_all` computes it: a function of the three
/// strings alone.
pub uninterp spec fn replaced(p: Seq<char>, text: Seq<char>, rep: Seq<char>) -> Seq<char>;

#[verifier::external_type_specification]
#[verifier::external_body]
pub struct ExRegex(regex::Regex);

#[verifier::external_type_specification]
#[verifier::external_body]
pub struct ExRegexError(regex::Error);

/// A compiled pattern, kept beside the source text it was compiled from.
/// Its view is that source text; the held `regex::Regex` is always the
/// one `compile` built from it.
pub struct Pattern {
    source: String,
    re: regex::Regex,
}

/// Relies on `regex::Regex::new`: compilation succeeds exactly when the
/// pattern is a valid regular expression within the default size limit,
/// an outcome that depends on the pattern string alone.
#[verifier::external_body]
fn regex_compile(pattern: &str) -> (r: Result<regex::Regex, regex::Error>)
    ensures
        r is Ok <==> pattern_valid(pattern@),
{
    regex::Regex::new(pattern)
}

/// Relies on `std::string::ToString` for `regex::Error` (through its
/// `Display` impl): renders the compiler's diagnostic.
#[verifier::external_body]
fn regex_error_text(e: &regex::Error) -> (r: String)
{
    e.to_string()
}

/// Relies on `regex::Regex::is_match`, applied to the regex that a
/// `Pattern` holds, which `compile` built from its source: true if and
/// only if the pattern matches somewhere in the text, an outcome that
/// depends on pattern and text alone.
#[verifier::external_body]
fn regex_is_match(p: &Pattern, text: &str) -> (r: bool)
    ensures
        r == has_match(p@, text@),
{
    p.re.is_match(text)
}

/// Relies on `regex::Regex::replace_all` with a string replacement,
/// applied to the regex that a `Pattern` holds, which `compile` built
/// from its source: the result depends on pattern, text and replacement
/// alone, and a text that the pattern matches nowhere comes back
/// unchanged.
#[verifier::external_body]
fn regex_replace_all(p: &Pattern, text: &str, rep: &str) -> (r: String)
    ensures
        r@ == replaced(p@, text@, rep@),
        !has_match(p@, text@) ==> r@ == text@,
{
    p.re.replace_all(text, rep).into_owned()
}

impl View for Pattern {
    type V = Seq<char>;

    closed spec fn view(&self) -> Seq<char> {
        self.source@
    }
}

impl Pattern {
    /// Compiles `pattern`; succeeds exactly on the valid patterns. The
    /// failure reports the pattern and the replacement the run was
    /// asked for, with the compiler's diagnostic.
    pub fn compile(pattern: &str, replacement: &str) -> (r: Result<Pattern, QrepError>)
        ensures
            r is Ok <==> pattern_valid(pattern@),
            r matches Ok(p) ==> p@ == pattern@,
            r matches Err(e) ==> e matches QrepError::PatternCompile {
                pattern: ep,
                replacement: er,
                message: _,
            } && ep@ == pattern@ && er@ == replacement@,
    {
        match regex_compile(pattern) {
            Ok(re) => Ok(Pattern { source: pattern.to_owned(), re }),
            Err(e) => Err(
                QrepError::PatternCompile {
                    pattern: pattern.to_owned(),
                    replacement: replacement.to_owned(),
                    message: regex_error_text(&e),
                },
            ),
        }
    }

    /// Whether this pattern matches anywhere in `text`.
    pub fn is_match(&self, text: &str) -> (r: bool)
        ensures
            r == has_match(self@, text@),
    {
        regex_is_match(self, text)
    }

    /// Replaces every non-overlapping leftmost match of this pattern in
    /// `text` with `rep`. A text with zero matches comes back verbatim.
    pub fn replace_all(&self, text: &str, rep: &str) -> (r: String)
        ensures
            r@ == replaced(self@, text@, rep@),
            !has_match(self@, text@) ==> r@ == text@,
    {
        regex_replace_all(self, text, rep)
    }
}

/// Compiles `target` and replaces every non-overlapping leftmost match
/// in `input` with `replacement`. Succeeds exactly when `target` is a
/// valid pattern; an input with zero matches comes back verbatim.
pub fn replace(input: &str, target: &str, replacement: &str) -> (r: Result<String, QrepError>)
    ensures
        r is Ok <==> pattern_valid(target@),
        r matches Ok(out) ==> out@ == replaced(target@, input@, replacement@),
        r matches Ok(out) ==> (!has_match(target@, input@) ==> out@ == input@),
        r matches Err(e) ==> e matches QrepError::PatternCompile {
            pattern: ep,
            replacement: er,
            message: _,
        } && ep@ == target@ && er@ == replacement@,
{
    let pattern = Pattern::compile(target, replacement)?;
    Ok(pattern.replace_all(input, replacement))
}

} // verus!
