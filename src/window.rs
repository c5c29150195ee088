//! The detection window: the samples that the amplitude estimator looks at,
//! advanced by half a window after each detection.
use vstd::prelude::*;

verus! {

/// The usual number of samples in a detection window.
pub const DEFAULT_WINDOW_SIZE: usize = 1024;

/// A buffer of the most recent samples. Samples are pushed one at a time
/// until the buffer holds a full window; after the window has been looked
/// at, `advance` discards its oldest half.
pub struct DetectionWindow<T> {
    samples: Vec<T>,
    size: usize,
    fresh: usize,
}

impl<T: Copy> DetectionWindow<T> {
    /// The samples held, oldest first.
    pub closed spec fn contents(&self) -> Seq<T> {
        self.samples@
    }

    /// The number of samples in a full window.
    pub closed spec fn size(&self) -> nat {
        self.size as nat
    }

    /// The samples pushed since the last advance.
    pub closed spec fn fresh(&self) -> nat {
        self.fresh as nat
    }

    /// How far each advance moves the window: half of it.
    pub open spec fn hop(&self) -> nat {
        self.size() / 2
    }

    pub open spec fn wf(&self) -> bool {
        &&& self.size() >= 2
        &&& self.contents().len() <= self.size()
        &&& self.fresh() <= self.contents().len()
    }

    pub open spec fn is_full(&self) -> bool {
        self.contents().len() == self.size()
    }

    /// Creates an empty window of `size` samples.
    pub fn new(size: usize) -> (r: DetectionWindow<T>)
        requires
            size >= 2,
        ensures
            r.wf(),
            r.size() == size,
            r.contents() == Seq::<T>::empty(),
            r.fresh() == 0,
    {
        DetectionWindow { samples: Vec::new(), size, fresh: 0 }
    }

    /// Whether the window is full and ready to be looked at.
    pub fn is_ready(&self) -> (r: bool)
        requires
            self.wf(),
        ensures
            r == self.is_full(),
    {
        self.samples.len() == self.size
    }

    /// Appends a sample; says whether the window is now full.
    pub fn push(&mut self, x: T) -> (full: bool)
        requires
            old(self).wf(),
            !old(self).is_full(),
        ensures
            final(self).wf(),
            final(self).size() == old(self).size(),
            final(self).contents() == old(self).contents().push(x),
            final(self).fresh() == old(self).fresh() + 1,
            full == final(self).is_full(),
    {
        self.samples.push(x);
        self.fresh = self.fresh + 1;
        self.samples.len() == self.size
    }

    /// The full window, oldest sample first.
    pub fn samples(&self) -> (r: &[T])
        requires
            self.wf(),
        ensures
            r@ == self.contents(),
    {
        self.samples.as_slice()
    }

    /// Discards the oldest half of a full window and gives the number of
    /// samples pushed since the previous advance: the time that the window
    /// just looked at has moved on by.
    pub fn advance(&mut self) -> (consumed: usize)
        requires
            old(self).wf(),
            old(self).is_full(),
        ensures
            final(self).wf(),
            final(self).size() == old(self).size(),
            final(self).contents() == old(self).contents().skip(old(self).hop() as int),
            final(self).contents().len() == old(self).size() - old(self).hop(),
            final(self).fresh() == 0,
            consumed == old(self).fresh(),
    {
        let hop = self.size / 2;
        let mut kept: Vec<T> = Vec::new();
        let mut i: usize = hop;
        while i < self.samples.len()
            invariant
                hop <= i <= self.samples.len(),
                kept@ == self.samples@.subrange(hop as int, i as int),
            decreases self.samples.len() - i,
        {
            kept.push(self.samples[i]);
            i = i + 1;
            assert(kept@ == self.samples@.subrange(hop as int, i as int));
        }
        let consumed = self.fresh;
        self.samples = kept;
        self.fresh = 0;
        consumed
    }
}

} // verus!
