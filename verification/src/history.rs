//! Rolling history of samples for one metric.
//!
//! One sample is appended per tick and nothing is ever removed, so the
//! buffer's length equals the number of ticks elapsed since start.
//! Rendering reads only a bounded trailing window of it.

use vstd::prelude::*;
use crate::window::{tail, tail_spec};

verus! {

/// An append-only sequence of samples for one metric.
pub struct History<T> {
    samples: Vec<T>,
}

impl<T> View for History<T> {
    type V = Seq<T>;

    closed spec fn view(&self) -> Seq<T> {
        self.samples@
    }
}

impl<T> History<T> {
    /// An empty history: no ticks have elapsed yet.
    pub fn new() -> (h: Self)
        ensures
            h@ == Seq::<T>::empty(),
    {
        History { samples: Vec::new() }
    }

    /// Appends this tick's sample. Nothing else changes: the buffer only
    /// ever grows, one sample per tick.
    pub fn push(&mut self, sample: T)
        ensures
            final(self)@ == old(self)@.push(sample),
    {
        self.samples.push(sample);
    }

    /// How many samples have been recorded.
    pub fn len(&self) -> (n: usize)
        ensures
            n == self@.len(),
    {
        self.samples.len()
    }

    /// The trailing window of at most `max` samples, for display.
    pub fn window(&self, max: usize) -> (r: &[T])
        ensures
            r@ == tail_spec(self@, max as int),
            r@.len() == if self@.len() <= max { self@.len() as int } else { max as int },
            forall|i: int|
                0 <= i < r@.len() ==> r@[i] == self@[self@.len() - r@.len() + i],
    {
        tail(self.samples.as_slice(), max)
    }
}

} // verus!
