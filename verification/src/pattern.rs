//! The pattern matcher: compiles a regular expression and tests it against a
//! subject string with search semantics (a match anywhere in the subject
//! counts, unless the pattern itself anchors with `^` or `$`).

use vstd::prelude::*;
use crate::errors::PatternError;

verus! {

/// What compiling `pattern` yields: `None` when the pattern is a well-formed
/// regular expression, otherwise the compiler's diagnostic. Compilation
/// succeeds or fails, with the same diagnostic, on the pattern alone.
pub uninterp spec fn regex_error(pattern: Seq<char>) -> Option<Seq<char>>;

/// Whether the well-formed regular expression `pattern` matches anywhere in
/// `subject`: a function of the two strings alone.
pub uninterp spec fn regex_accepts(pattern: Seq<char>, subject: Seq<char>) -> bool;

/// The pattern is a well-formed regular expression.
pub open spec fn regex_valid(pattern: Seq<char>) -> bool {
    regex_error(pattern) is None
}

/// Relies on regex::Regex::new and regex::Regex::is_match: whether a pattern
/// compiles, and the diagnostic when it does not, depend on the pattern
/// alone; whether a compiled pattern matches somewhere in the subject
/// depends on the pattern and the subject alone.
#[verifier::external_body]
fn regex_search(pattern: &str, subject: &str) -> (r: Result<bool, String>)
    ensures
        r is Ok <==> regex_valid(pattern@),
        r is Ok ==> r->Ok_0 == regex_accepts(pattern@, subject@),
        r is Err ==> regex_error(pattern@) == Some(r->Err_0@),
{
    match regex::Regex::new(pattern) {
        Ok(re) => Ok(re.is_match(subject)),
        Err(e) => Err(format!("{e}")),
    }
}

/// Compiles `pattern` and reports whether it matches anywhere in `subject`.
/// A malformed pattern is a `PatternError` carrying the engine's diagnostic,
/// never a plain `false`.
pub fn matches(pattern: &str, subject: &str) -> (r: Result<bool, PatternError>)
    ensures
        r is Ok <==> regex_valid(pattern@),
        r is Ok ==> r->Ok_0 == regex_accepts(pattern@, subject@),
        r is Err ==> regex_error(pattern@) == Some(r->Err_0.msg@),
{
    match regex_search(pattern, subject) {
        Ok(found) => Ok(found),
        Err(msg) => Err(PatternError { msg }),
    }
}

} // verus!
