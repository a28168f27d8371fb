//! Comparing strings.

use vstd::prelude::*;

verus! {

/// Whether a string holds exactly the given text.
pub(crate) fn holds_text(given: &String, text: &str) -> (r: bool)
    ensures
        r == (given@ == text@),
{
    *given == text.to_owned()
}

} // verus!
