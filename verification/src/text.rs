//! Building owned strings from string slices.

use vstd::prelude::*;
use vstd::string::*;

verus! {

/// A copy of `text` as an owned string.
pub(crate) fn owned(text: &str) -> (copy: String)
    ensures
        copy@ == text@,
{
    let mut copy = String::new();
    copy.append(text);
    assert(copy@ =~= text@);
    copy
}

/// `prefix` followed by `rest`.
pub(crate) fn joined(prefix: &str, rest: &str) -> (text: String)
    ensures
        text@ == prefix@ + rest@,
{
    let mut text = String::new();
    text.append(prefix);
    text.append(rest);
    assert(text@ =~= prefix@ + rest@);
    text
}

} // verus!
