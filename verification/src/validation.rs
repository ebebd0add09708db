//! The two format rules that request bodies are held to.

use vstd::prelude::*;
use vstd::string::StrSliceExecFns;

verus! {

/// Whether `validator::validate_email` takes this text for an e-mail address.
pub uninterp spec fn email_shape(text: Seq<char>) -> bool;

/// Whether `text` has the shape of an e-mail address.
///
/// Calls `validator::validate_email`, which goes by the HTML5 rule for
/// addresses. Trusted: the result is the one named by [`email_shape`].
#[verifier::external_body]
pub(crate) fn is_email(text: &str) -> (ok: bool)
    ensures
        ok == email_shape(text@),
{
    validator::validate_email(text)
}

/// Whether `text` holds at least `min` and at most `max` characters.
pub fn has_length(text: &str, min: usize, max: usize) -> (ok: bool)
    ensures
        ok == (min <= text@.len() <= max),
{
    let length: usize = text.unicode_len();
    min <= length && length <= max
}

} // verus!
