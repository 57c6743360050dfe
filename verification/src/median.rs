//! Where the median sits among sorted values.
use vstd::prelude::*;

verus! {

/// The positions of the middle values among `len` sorted values: the two
/// middle positions when `len` is even, and the middle position twice when
/// it is odd. The median is the mean of the values at the two positions.
pub fn median_positions(len: usize) -> (r: (usize, usize))
    requires
        len > 0,
    ensures
        len % 2 == 0 ==> r == (((len / 2) - 1) as usize, (len / 2) as usize),
        len % 2 == 1 ==> r.0 == (len + 1) / 2 - 1 && r.1 == r.0,
        r.0 <= r.1 < len,
{
    if len % 2 == 0 {
        let mid: usize = len / 2;
        (mid - 1, mid)
    } else {
        let mid: usize = len / 2;
        (mid, mid)
    }
}

} // verus!
