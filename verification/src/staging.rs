//! Rotating pool of host-visible uniform buffers. Each frame publishes a
//! fresh copy of a uniform payload into the next ring slot; a slot may be
//! reused only once the GPU submission that read it has been retired. This
//! reuse discipline is the single most important invariant of the core:
//! skipping it is a data race on the GPU side.

use vstd::prelude::*;

verus! {

/// A ring of uniform-buffer slots together with the bookkeeping that says
/// which submitted frame last read each slot.
///
/// Frame identifiers are issued in increasing order by the orchestrator; a
/// frame is *retired* once its completion handle has been observed finished,
/// and every identifier up to `last_retired` counts as retired.
pub struct UniformStaging {
    /// For each ring slot, the identifier of the frame whose submission
    /// reads the slot's current contents, or `None` if the slot has never
    /// been handed out.
    pub readers: Vec<Option<u64>>,
    /// Index of the slot the next publish will write.
    pub next_slot: usize,
    /// Every frame identifier up to and including this one has retired.
    pub last_retired: u64,
}

impl UniformStaging {
    /// Well-formedness: the ring is non-empty and the write cursor stays
    /// inside it.
    pub open spec fn wf(self) -> bool {
        &&& self.readers.len() >= 1
        &&& self.next_slot < self.readers.len()
    }

    /// A slot is safe to overwrite when no submission that reads its
    /// current contents is still outstanding.
    pub open spec fn slot_retired(self, slot: int) -> bool {
        match self.readers[slot] {
            None => true,
            Some(frame) => frame <= self.last_retired,
        }
    }

    /// A fresh ring of `slot_count` never-used slots.
    pub fn new(slot_count: usize) -> (s: UniformStaging)
        requires
            slot_count >= 1,
        ensures
            s.wf(),
            s.readers.len() == slot_count,
            s.next_slot == 0,
            s.last_retired == 0,
            forall|i: int| 0 <= i < slot_count ==> (#[trigger] s.readers[i]) is None,
            forall|i: int| 0 <= i < slot_count ==> s.slot_retired(i),
    {
        let mut readers: Vec<Option<u64>> = Vec::new();
        let mut i: usize = 0;
        while i < slot_count
            invariant
                i <= slot_count,
                readers.len() == i,
                forall|j: int| 0 <= j < i ==> readers[j] is None,
            decreases slot_count - i,
        {
            readers.push(None);
            i = i + 1;
        }
        UniformStaging { readers, next_slot: 0, last_retired: 0 }
    }

    /// Whether the slot the next publish would take is safe to overwrite.
    pub fn can_publish(&self) -> (r: bool)
        requires
            self.wf(),
        ensures
            r == self.slot_retired(self.next_slot as int),
    {
        match self.readers[self.next_slot] {
            None => true,
            Some(frame) => frame <= self.last_retired,
        }
    }

    /// Hand out the next ring slot for the submission identified by
    /// `frame`. The caller must have retired the slot's previous reader
    /// first (by waiting on, or having already observed, its completion
    /// handle): publishing over an unretired reader would let the GPU read
    /// a buffer while the host rewrites it.
    pub fn publish(&mut self, frame: u64) -> (slot: usize)
        requires
            old(self).wf(),
            old(self).slot_retired(old(self).next_slot as int),
        ensures
            final(self).wf(),
            slot == old(self).next_slot,
            old(self).slot_retired(slot as int),
            final(self).readers@ == old(self).readers@.update(slot as int, Some(frame)),
            final(self).readers.len() == old(self).readers.len(),
            final(self).next_slot as int == (old(self).next_slot + 1) % (old(self).readers@.len() as int),
            final(self).last_retired == old(self).last_retired,
    {
        let slot: usize = self.next_slot;
        self.readers.set(slot, Some(frame));
        self.next_slot = (slot + 1) % self.readers.len();
        slot
    }

    /// Hand out the next ring slot only if it is safe; `None` reports that
    /// the previous reader of that slot has not retired yet and nothing was
    /// changed.
    pub fn try_publish(&mut self, frame: u64) -> (r: Option<usize>)
        requires
            old(self).wf(),
        ensures
            final(self).wf(),
            old(self).slot_retired(old(self).next_slot as int) ==> (
                r == Some(old(self).next_slot)
                && final(self).readers@ == old(self).readers@.update(old(self).next_slot as int, Some(frame))
                && final(self).next_slot as int == (old(self).next_slot + 1) % (old(self).readers@.len() as int)
                && final(self).last_retired == old(self).last_retired
            ),
            !old(self).slot_retired(old(self).next_slot as int) ==> (
                r is None && *final(self) == *old(self)
            ),
    {
        if self.can_publish() {
            Some(self.publish(frame))
        } else {
            None
        }
    }

    /// Record that every submission up to and including `frame` has
    /// finished, making the slots those submissions read safe to reuse.
    pub fn retire(&mut self, frame: u64)
        requires
            old(self).wf(),
        ensures
            final(self).wf(),
            final(self).readers == old(self).readers,
            final(self).next_slot == old(self).next_slot,
            final(self).last_retired == (if frame > old(self).last_retired {
                frame
            } else {
                old(self).last_retired
            }),
    {
        if frame > self.last_retired {
            self.last_retired = frame;
        }
    }
}

/// Law: once every reader the ring has recorded is at or below the retired
/// watermark, every slot — in particular the one the next publish takes —
/// is safe, so a publish that follows a full retire can never target a slot
/// with an outstanding reader.
pub proof fn lemma_retired_ring_is_safe(s: UniformStaging)
    requires
        s.wf(),
        forall|i: int|
            0 <= i < s.readers.len() ==> ((#[trigger] s.readers[i]) matches Some(f) ==> f
                <= s.last_retired),
    ensures
        forall|i: int| 0 <= i < s.readers.len() ==> s.slot_retired(i),
        s.slot_retired(s.next_slot as int),
{
}

} // verus!
