//! Comparisons and cuts on text, stated over sequences of characters.

use vstd::prelude::*;
use vstd::string::*;

verus! {

/// Whether two pieces of text hold the same characters.
pub fn same_text(left: &str, right: &str) -> (same: bool)
    ensures
        same == (left@ == right@),
{
    String::from_str(left) == String::from_str(right)
}

/// Whether `text` begins with `prefix`.
pub fn starts_with(text: &str, prefix: &str) -> (found: bool)
    ensures
        found == prefix@.is_prefix_of(text@),
{
    let width: usize = prefix.unicode_len();
    if text.unicode_len() < width {
        return false;
    }
    let head = text.substring_char(0, width);
    same_text(head, prefix)
}

/// What is left of `text` once the first `prefix` characters are cut off.
pub fn after_prefix(text: &str, prefix: &str) -> (rest: String)
    requires
        prefix@.len() <= text@.len(),
    ensures
        rest@ == text@.skip(prefix@.len() as int),
{
    let width: usize = prefix.unicode_len();
    let length: usize = text.unicode_len();
    String::from_str(text.substring_char(width, length))
}

} // verus!
