//! Comparing texts.
use vstd::prelude::*;

verus! {

/// Whether a text is this word.
pub(crate) fn same(text: &String, word: &str) -> (equal: bool)
    ensures
        equal == (text@ == word@),
{
    *text == word.to_owned()
}

} // verus!
