//! Small display helpers.

use vstd::prelude::*;

verus! {

/// `s` regrouped from the right in blocks of three characters, a space
/// between blocks.
pub open spec fn grouped_spec(s: Seq<char>) -> Seq<char>
    decreases s.len(),
{
    if s.len() <= 3 {
        s
    } else {
        grouped_spec(s.take(s.len() - 3)) + " "@ + s.skip(s.len() - 3)
    }
}

/// Groups the decimal rendering of a number in threes from the right, for
/// display: a space before every third character.
pub fn prettify_int(digits: &str) -> (r: String)
    ensures
        r@ == grouped_spec(digits@),
    decreases digits@.len(),
{
    let n = digits.unicode_len();
    if n <= 3 {
        return String::from_str(digits);
    }
    let head = digits.substring_char(0, n - 3);
    let tail = digits.substring_char(n - 3, n);
    proof {
        assert(head@ =~= digits@.take(n - 3));
        assert(tail@ =~= digits@.skip(n - 3));
    }
    let mut out = prettify_int(head);
    out.append(" ");
    out.append(tail);
    out
}

} // verus!
