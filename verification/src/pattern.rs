//! Regular-expression matching, done by the `regex` crate.
use vstd::prelude::*;

verus! {

/// Whether `regex::Regex::new` accepts `pattern`.
pub uninterp spec fn regex_compiles(pattern: Seq<char>) -> bool;

/// `Regex::is_match` of the expression compiled from `pattern`, on `text`:
/// whether some part of `text` matches.
pub uninterp spec fn regex_finds(pattern: Seq<char>, text: Seq<char>) -> bool;

/// Compiles `pattern` with `regex::Regex::new` and, when that succeeds, runs
/// `Regex::is_match` on `text`. The contract claims only that `None` comes
/// exactly when compilation fails and that the answer is a function of the
/// pattern and the text; what that function is, is the `regex` crate's.
#[verifier::external_body]
pub(crate) fn regex_is_match(pattern: &str, text: &str) -> (r: Option<bool>)
    ensures
        r is Some <==> regex_compiles(pattern@),
        r matches Some(b) ==> b == regex_finds(pattern@, text@),
{
    match regex::Regex::new(pattern) {
        Ok(re) => Some(re.is_match(text)),
        Err(_) => None,
    }
}

} // verus!
