//! Bounded trailing window over an ordered sequence of samples.
//!
//! History buffers grow once per tick without bound; what is rendered is
//! only a trailing window of fixed size (thumbnails and detail charts use
//! different sizes). `tail` selects that window.

use vstd::prelude::*;
use vstd::slice::slice_subrange;

verus! {

/// The last `max` elements of `s`, or all of `s` when it is shorter.
pub open spec fn tail_spec<T>(s: Seq<T>, max: int) -> Seq<T> {
    if s.len() > max {
        s.subrange(s.len() - max, s.len() as int)
    } else {
        s
    }
}

/// Returns the trailing window of `data` of at most `max` elements:
/// the result has length `min(len, max)` and holds the final elements
/// of `data` in their original order.
pub fn tail<T>(data: &[T], max: usize) -> (r: &[T])
    ensures
        r@ == tail_spec(data@, max as int),
        r@.len() == if data@.len() <= max { data@.len() as int } else { max as int },
        forall|i: int|
            0 <= i < r@.len() ==> r@[i] == data@[data@.len() - r@.len() + i],
{
    if data.len() > max {
        slice_subrange(data, data.len() - max, data.len())
    } else {
        data
    }
}

} // verus!
