//! Observability bookkeeping for the frame driver: the last published
//! sprite-frame index and the set of frame indices already reported.
//! Threaded through the driver explicitly, so its lifetime is the driver's
//! and no process-wide state is needed.

use vstd::prelude::*;

verus! {

/// The diagnostics state: `last_frame` is the most recently published
/// sprite-frame index, `reported` the frame indices already dumped, each
/// held once.
#[derive(PartialEq, Eq, Debug)]
pub struct Diagnostics {
    pub last_frame: usize,
    pub reported: Vec<usize>,
}

impl Diagnostics {
    /// `reported` holds no duplicates, so it stands for a set.
    pub open spec fn wf(self) -> bool {
        forall|i: int, j: int|
            0 <= i < j < self.reported@.len() ==> self.reported@[i] != self.reported@[j]
    }

    pub fn new() -> (d: Diagnostics)
        ensures
            d.last_frame == 0,
            d.reported@.len() == 0,
            d.wf(),
    {
        Diagnostics { last_frame: 0, reported: Vec::new() }
    }

    /// Publish the sprite-frame index that was just committed, for the
    /// dump to pick up.
    pub fn publish_frame(&mut self, frame: usize)
        ensures
            *final(self) == (Diagnostics { last_frame: frame, reported: old(self).reported }),
    {
        self.last_frame = frame;
    }

    /// Note the last published frame as reported. Returns whether it was
    /// new; a frame already reported is left alone, so `reported` keeps
    /// set semantics.
    pub fn record_last(&mut self) -> (fresh: bool)
        requires
            old(self).wf(),
        ensures
            final(self).wf(),
            final(self).last_frame == old(self).last_frame,
            fresh == !old(self).reported@.contains(old(self).last_frame),
            final(self).reported@ == if fresh {
                old(self).reported@.push(old(self).last_frame)
            } else {
                old(self).reported@
            },
    {
        let ghost d0 = *self;
        let frame = self.last_frame;
        let n = self.reported.len();
        let mut i: usize = 0;
        while i < n
            invariant
                i <= n,
                *self == d0,
                d0.wf(),
                n == self.reported@.len(),
                frame == self.last_frame,
                forall|j: int| 0 <= j < i ==> self.reported@[j] != frame,
            decreases n - i,
        {
            if self.reported[i] == frame {
                assert(self.reported@.contains(frame));
                return false;
            }
            i = i + 1;
        }
        assert(!self.reported@.contains(frame)) by {
            assert(forall|j: int|
                0 <= j < self.reported@.len() ==> self.reported@[j] != frame);
        }
        self.reported.push(frame);
        true
    }
}

} // verus!
