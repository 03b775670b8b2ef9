//! The sample sink: the buffer that sits between the capture callback and the
//! chunk assembler.
//!
//! The sink is an ordered, growable sequence of samples. The producer side only
//! ever appends at the back; the consumer side only ever removes from the front.
//! The order in which samples were appended is therefore the order in which they
//! leave, and a sample leaves at most once.
//!
//! The sink is generic in the sample type so that the same buffer discipline
//! serves whatever canonical representation the capture side settles on.

use vstd::prelude::*;

verus! {

/// An append-at-back, drain-from-front buffer of samples.
///
/// The view of a sink is the sequence of samples it currently holds, oldest
/// first.
pub struct SampleSink<T> {
    samples: Vec<T>,
}

impl<T> View for SampleSink<T> {
    type V = Seq<T>;

    closed spec fn view(&self) -> Seq<T> {
        self.samples@
    }
}

impl<T> SampleSink<T> {
    /// Creates an empty sink.
    pub fn new() -> (sink: Self)
        ensures
            sink@ == Seq::<T>::empty(),
    {
        SampleSink { samples: Vec::new() }
    }

    /// Number of samples currently buffered.
    pub fn len(&self) -> (n: usize)
        ensures
            n == self@.len(),
    {
        self.samples.len()
    }

    /// Whether the sink holds no sample at all.
    pub fn is_empty(&self) -> (empty: bool)
        ensures
            empty <==> self@.len() == 0,
    {
        self.samples.len() == 0
    }

    /// Appends one sample behind everything already buffered.
    pub fn push(&mut self, sample: T)
        ensures
            final(self)@ == old(self)@.push(sample),
    {
        self.samples.push(sample);
    }

    /// Appends a whole batch, keeping the order of the batch.
    pub fn extend(&mut self, batch: &[T]) where T: Copy
        ensures
            final(self)@ == old(self)@ + batch@,
    {
        let mut i: usize = 0;
        while i < batch.len()
            invariant
                i <= batch@.len(),
                self@ == old(self)@ + batch@.take(i as int),
            decreases batch@.len() - i,
        {
            self.samples.push(batch[i]);
            i += 1;
        }
    }

    /// Removes the `count` oldest samples and returns them, oldest first. The
    /// samples that stay keep their order.
    pub fn drain_front(&mut self, count: usize) -> (drained: Vec<T>)
        requires
            count <= old(self)@.len(),
        ensures
            drained@ == old(self)@.take(count as int),
            final(self)@ == old(self)@.skip(count as int),
    {
        let mut other = self.samples.split_off(count);
        std::mem::swap(&mut self.samples, &mut other);
        other
    }

    /// Removes every buffered sample and returns them, oldest first.
    pub fn drain_all(&mut self) -> (drained: Vec<T>)
        ensures
            drained@ == old(self)@,
            final(self)@ == Seq::<T>::empty(),
    {
        let mut other = Vec::new();
        std::mem::swap(&mut self.samples, &mut other);
        other
    }
}

} // verus!
