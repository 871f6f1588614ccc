//! Character-level helpers on `String`, and what "blank" means for item text.
use vstd::prelude::*;

verus! {

/// Whether `c` carries the Unicode `White_Space` property.
pub uninterp spec fn white_space(c: char) -> bool;

/// Text that is empty once leading and trailing whitespace is trimmed.
pub open spec fn blank(s: Seq<char>) -> bool {
    forall|i: int| 0 <= i < s.len() ==> #[trigger] white_space(s[i])
}

/// Relies on `char::is_whitespace`: true exactly for characters with the
/// Unicode `White_Space` property.
#[verifier::external_body]
fn is_white_space(c: char) -> (r: bool)
    ensures
        r == white_space(c),
{
    c.is_whitespace()
}

/// Relies on `String::push`: appends one character at the end.
#[verifier::external_body]
pub(crate) fn push_char(s: &mut String, c: char)
    ensures
        final(s)@ == old(s)@.push(c),
{
    s.push(c)
}

/// Relies on `String::pop`: removes and returns the last character, or
/// returns `None` on an empty string.
#[verifier::external_body]
pub(crate) fn pop_char(s: &mut String) -> (r: Option<char>)
    ensures
        old(s)@.len() > 0 ==> r == Some(old(s)@.last()) && final(s)@ == old(s)@.drop_last(),
        old(s)@.len() == 0 ==> r is None && final(s)@ == old(s)@,
{
    s.pop()
}

/// Whether `s` holds only whitespace (or nothing at all).
pub fn is_blank(s: &str) -> (r: bool)
    ensures
        r == blank(s@),
{
    for c in iter: s.chars()
        invariant
            iter.seq() == s@,
            forall|j: int| 0 <= j < iter.index() ==> #[trigger] white_space(s@[j]),
    {
        if !is_white_space(c) {
            return false;
        }
    }
    true
}

} // verus!
