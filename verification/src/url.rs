//! The check that an argument looks like a URL.

use vstd::prelude::*;
use vstd::string::StrSliceExecFns;

verus! {

/// Whether `text` begins with the four letters `http`. Nothing else is
/// asked of a URL: `httpfoo` passes, and a source with another scheme does
/// not.
pub open spec fn has_http_prefix(text: Seq<char>) -> bool {
    &&& text.len() >= 4
    &&& text[0] == 'h'
    &&& text[1] == 't'
    &&& text[2] == 't'
    &&& text[3] == 'p'
}

/// Whether `text` begins with `http`.
pub fn starts_with_http(text: &str) -> (accepted: bool)
    ensures
        accepted == has_http_prefix(text@),
{
    if text.unicode_len() < 4 {
        return false;
    }
    let first = text.get_char(0);
    let second = text.get_char(1);
    let third = text.get_char(2);
    let fourth = text.get_char(3);
    first == 'h' && second == 't' && third == 't' && fourth == 'p'
}

} // verus!
