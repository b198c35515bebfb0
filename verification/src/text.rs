//! Operations on source text.

use crate::model::Text;
use vstd::prelude::*;

verus! {

/// A text without its double quotes.
pub open spec fn without_quotes(s: Text) -> Text {
    s.filter(|c: char| c != '"')
}

/// Calls `str::replace` to take every double quote out of a text.
#[verifier::external_body]
pub(crate) fn remove_quotes(s: &String) -> (r: String)
    ensures
        r@ == without_quotes(s@),
{
    s.replace("\"", "")
}

} // verus!
