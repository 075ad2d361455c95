//! Frame orchestration: the per-iteration control protocol that retires the
//! previous frame's GPU work, rebuilds the surface when it is stale,
//! reacts to what image acquisition reported, stages fresh uniforms into a
//! safe ring slot, and records the submission as the one frame in flight.
//!
//! The GPU backend performs the real acquire, dispatch and present; it
//! feeds their outcomes in as plain events and obeys the decisions handed
//! back. At most one frame is in flight at any time.

use vstd::prelude::*;
use crate::staging::UniformStaging;
use crate::surface::{RebuildOutcome, PresentationSurface};

verus! {

/// Completion handle of previously submitted GPU work: either already
/// signaled (nothing outstanding) or the identifier of the one submitted
/// frame still possibly running.
#[derive(Clone, Copy, Debug, PartialEq, Eq, Structural)]
pub enum FrameHandle {
    /// No GPU work is outstanding.
    Signaled,
    /// The submission for this frame may still be running.
    Pending { frame: u64 },
}

/// What the backend's image acquisition reported.
#[derive(Clone, Copy, Debug, PartialEq, Eq, Structural)]
pub enum AcquireOutcome {
    /// An image is available. `suboptimal` says it is usable but no longer
    /// matches the surface perfectly.
    Available { index: usize, suboptimal: bool },
    /// The swapchain is stale; nothing was acquired.
    OutOfDate,
}

/// The orchestrator's decision after acquisition.
#[derive(Clone, Copy, Debug, PartialEq, Eq, Structural)]
pub enum AcquireDecision {
    /// Render into the image with this index.
    Render { index: usize },
    /// Skip this iteration; the surface will be rebuilt first.
    Skip,
}

/// What the backend reported for the submit-and-present chain.
#[derive(Clone, Copy, Debug, PartialEq, Eq, Structural)]
pub enum SubmitOutcome {
    /// The chain was queued; its completion handle is now the frame in
    /// flight.
    Submitted,
    /// The swapchain went stale at submission or presentation.
    OutOfDate,
    /// Any other submission error: the GPU timeline can no longer be
    /// trusted.
    Failed,
}

/// The orchestrator's decision after submission.
#[derive(Clone, Copy, Debug, PartialEq, Eq, Structural)]
pub enum SubmitDecision {
    /// Go on to the next iteration.
    Continue,
    /// Unrecoverable: the caller must terminate with the backend's error.
    Fatal,
}

/// The mutable loop state of the frame loop, passed by exclusive reference
/// through each iteration: the presentation surface, the uniform staging
/// ring, the one in-flight completion handle, and the frame counter.
pub struct FrameOrchestrator {
    /// Swapchain and size-dependent resource state.
    pub surface: PresentationSurface,
    /// Rotating pool of host-visible uniform buffers.
    pub staging: UniformStaging,
    /// Completion handle of the previous frame's submission.
    pub prev_frame: FrameHandle,
    /// Identifier the next submission will carry; strictly increasing.
    pub next_frame: u64,
    /// Identifier of the frame whose uniforms are staged but not yet
    /// submitted, if any.
    pub staged_frame: Option<u64>,
}

impl FrameOrchestrator {
    /// Protocol invariant. Beyond well-formedness of the parts: the one
    /// pending submission is the last issued frame and never coexists with
    /// a staged-but-unsubmitted frame; every ring reader is an issued
    /// frame; and whenever no frame is staged, every ring reader is a
    /// frame the next retire pass covers.
    pub open spec fn wf(self) -> bool {
        &&& self.surface.wf()
        &&& self.staging.wf()
        &&& self.next_frame >= 1
        &&& (self.prev_frame matches FrameHandle::Pending { frame } ==> frame == self.next_frame
            - 1 && self.staged_frame is None)
        &&& (self.staged_frame matches Some(f) ==> f == self.next_frame && self.prev_frame
            is Signaled)
        &&& (forall|i: int|
            0 <= i < self.staging.readers.len() ==> ((#[trigger] self.staging.readers[i])
                matches Some(f) ==> f <= self.next_frame))
        &&& (self.staged_frame is None ==> (forall|i: int|
            0 <= i < self.staging.readers.len() ==> ((#[trigger] self.staging.readers[i])
                matches Some(f) ==> f < self.next_frame)))
    }

    /// Every staging slot is safe to overwrite.
    pub open spec fn staging_all_retired(self) -> bool {
        forall|i: int| 0 <= i < self.staging.readers.len() ==> self.staging.slot_retired(i)
    }

    /// A fresh orchestrator over a just-created surface: nothing in
    /// flight, nothing staged, an already-signaled baseline handle, and an
    /// empty uniform ring of `slot_count` slots.
    pub fn new(width: u32, height: u32, image_count: usize, slot_count: usize) -> (o:
        FrameOrchestrator)
        requires
            image_count >= 1,
            slot_count >= 1,
        ensures
            o.wf(),
            o.surface == (PresentationSurface {
                dirty: false,
                width,
                height,
                image_count,
                framebuffer_count: image_count,
                generation: 0,
            }),
            o.prev_frame is Signaled,
            o.next_frame == 1,
            o.staged_frame is None,
            o.staging.readers.len() == slot_count,
            o.staging.next_slot == 0,
            o.staging.last_retired == 0,
            forall|i: int| 0 <= i < slot_count ==> (#[trigger] o.staging.readers[i]) is None,
    {
        FrameOrchestrator {
            surface: PresentationSurface::new(width, height, image_count),
            staging: UniformStaging::new(slot_count),
            prev_frame: FrameHandle::Signaled,
            next_frame: 1,
            staged_frame: None,
        }
    }

    /// Start of an iteration: the previous frame's completion handle has
    /// been waited on (or was already signaled), so every submitted frame
    /// has finished. Retire them all; afterwards every uniform slot is
    /// safe to overwrite, which is what makes the following publish free
    /// of GPU-side races.
    pub fn retire_previous(&mut self)
        requires
            old(self).wf(),
            old(self).staged_frame is None,
        ensures
            final(self).wf(),
            final(self).prev_frame is Signaled,
            final(self).staged_frame is None,
            final(self).surface == old(self).surface,
            final(self).next_frame == old(self).next_frame,
            final(self).staging.readers == old(self).staging.readers,
            final(self).staging.next_slot == old(self).staging.next_slot,
            final(self).staging_all_retired(),
    {
        let retired: u64 = self.next_frame - 1;
        self.staging.retire(retired);
        self.prev_frame = FrameHandle::Signaled;
    }

    /// Whether the surface must be rebuilt before anything is acquired.
    pub fn needs_rebuild(&self) -> (r: bool)
        ensures
            r == self.surface.dirty,
    {
        self.surface.dirty
    }

    /// A resize notification arrived: the swapchain no longer matches the
    /// window and must be rebuilt.
    pub fn mark_resized(&mut self)
        requires
            old(self).wf(),
        ensures
            final(self).wf(),
            final(self).surface == (PresentationSurface { dirty: true, ..old(self).surface }),
            final(self).staging == old(self).staging,
            final(self).prev_frame == old(self).prev_frame,
            final(self).next_frame == old(self).next_frame,
            final(self).staged_frame == old(self).staged_frame,
    {
        self.surface.mark_dirty();
    }

    /// Rebuild the size-dependent resources if the surface is dirty, as
    /// [`PresentationSurface::rebuild`] specifies: a zero dimension is an
    /// expected transient that leaves the dirty flag set, and the caller
    /// then skips the iteration.
    pub fn rebuild_surface(&mut self, width: u32, height: u32, image_count: usize) -> (r:
        RebuildOutcome)
        requires
            old(self).wf(),
            image_count >= 1,
        ensures
            final(self).wf(),
            (final(self).surface, r) == old(self).surface.spec_rebuild(width, height, image_count),
            final(self).staging == old(self).staging,
            final(self).prev_frame == old(self).prev_frame,
            final(self).next_frame == old(self).next_frame,
            final(self).staged_frame == old(self).staged_frame,
    {
        self.surface.rebuild(width, height, image_count)
    }

    /// React to what image acquisition reported. Must not be called while
    /// the surface is dirty: a stale swapchain is rebuilt first. An
    /// out-of-date report marks the surface dirty and skips the iteration
    /// — routine during a resize, never a crash. A suboptimal image is
    /// still rendered, but the surface is marked dirty for the next
    /// iteration.
    pub fn handle_acquire(&mut self, outcome: AcquireOutcome) -> (d: AcquireDecision)
        requires
            old(self).wf(),
            !old(self).surface.dirty,
            outcome matches AcquireOutcome::Available { index, .. } ==> index < old(
                self,
            ).surface.image_count,
        ensures
            final(self).wf(),
            final(self).staging == old(self).staging,
            final(self).prev_frame == old(self).prev_frame,
            final(self).next_frame == old(self).next_frame,
            final(self).staged_frame == old(self).staged_frame,
            final(self).surface == (PresentationSurface {
                dirty: final(self).surface.dirty,
                ..old(self).surface
            }),
            outcome is OutOfDate ==> d == AcquireDecision::Skip && final(self).surface.dirty,
            outcome matches AcquireOutcome::Available { index, suboptimal } ==> d
                == (AcquireDecision::Render { index }) && final(self).surface.dirty == suboptimal
                && index < final(self).surface.image_count,
    {
        match outcome {
            AcquireOutcome::OutOfDate => {
                self.surface.mark_dirty();
                AcquireDecision::Skip
            },
            AcquireOutcome::Available { index, suboptimal } => {
                if suboptimal {
                    self.surface.mark_dirty();
                }
                AcquireDecision::Render { index }
            },
        }
    }

    /// Stage this frame's uniform payloads: hand out the next ring slot
    /// for the frame about to be submitted. Callable only after the
    /// retire pass of this iteration, which guarantees — and Verus proves
    /// — that the slot's previous reader has retired, so the host never
    /// rewrites a buffer the GPU may still read.
    pub fn stage_uniforms(&mut self) -> (slot: usize)
        requires
            old(self).wf(),
            old(self).prev_frame is Signaled,
            old(self).staged_frame is None,
            old(self).staging_all_retired(),
        ensures
            final(self).wf(),
            slot == old(self).staging.next_slot,
            slot < final(self).staging.readers.len(),
            old(self).staging.slot_retired(slot as int),
            final(self).staged_frame == Some(old(self).next_frame),
            final(self).surface == old(self).surface,
            final(self).prev_frame == old(self).prev_frame,
            final(self).next_frame == old(self).next_frame,
            final(self).staging.readers@ == old(self).staging.readers@.update(
                slot as int,
                Some(old(self).next_frame),
            ),
            final(self).staging.last_retired == old(self).staging.last_retired,
    {
        let frame: u64 = self.next_frame;
        let slot: usize = self.staging.publish(frame);
        self.staged_frame = Some(frame);
        slot
    }

    /// Record what the submit-and-present chain reported, and consume the
    /// staged frame. On success the submission becomes the one frame in
    /// flight. An out-of-date report marks the surface dirty and resets
    /// the in-flight handle to an already-signaled baseline, so the next
    /// iteration is not blocked on a handle that will never resolve; the
    /// abandoned submission reads nothing, so its slot retires at once.
    /// Any other error is fatal: the caller terminates.
    pub fn complete_frame(&mut self, outcome: SubmitOutcome) -> (d: SubmitDecision)
        requires
            old(self).wf(),
            old(self).staged_frame is Some,
            old(self).next_frame < u64::MAX,
        ensures
            final(self).wf(),
            final(self).staged_frame is None,
            final(self).next_frame == old(self).next_frame + 1,
            final(self).staging.readers == old(self).staging.readers,
            outcome is Submitted ==> d == SubmitDecision::Continue && final(self).prev_frame
                == (FrameHandle::Pending { frame: old(self).next_frame }) && final(self).surface
                == old(self).surface && final(self).staging == old(self).staging,
            outcome is OutOfDate ==> d == SubmitDecision::Continue && final(self).prev_frame
                is Signaled && final(self).surface == (PresentationSurface {
                dirty: true,
                ..old(self).surface
            }),
            outcome is Failed ==> d == SubmitDecision::Fatal && final(self).prev_frame is Signaled
                && final(self).surface == old(self).surface,
            !(outcome is Submitted) ==> final(self).staging.next_slot == old(
                self,
            ).staging.next_slot && final(self).staging_all_retired(),
    {
        let frame: u64 = self.next_frame;
        self.staged_frame = None;
        self.next_frame = frame + 1;
        match outcome {
            SubmitOutcome::Submitted => {
                self.prev_frame = FrameHandle::Pending { frame };
                SubmitDecision::Continue
            },
            SubmitOutcome::OutOfDate => {
                self.surface.mark_dirty();
                self.prev_frame = FrameHandle::Signaled;
                self.staging.retire(frame);
                SubmitDecision::Continue
            },
            SubmitOutcome::Failed => {
                self.prev_frame = FrameHandle::Signaled;
                self.staging.retire(frame);
                SubmitDecision::Fatal
            },
        }
    }
}

/// Law (slot safety): at the start of an iteration — a well-formed state
/// with nothing staged — every ring reader is a frame the retire pass
/// covers, so once the watermark has advanced past the issued frames,
/// every slot is safe to overwrite. The publish that follows therefore
/// never hands out a slot whose previous reader is still outstanding.
pub proof fn lemma_slot_safety(o: FrameOrchestrator, retired: UniformStaging)
    requires
        o.wf(),
        o.staged_frame is None,
        retired.readers == o.staging.readers,
        retired.next_slot == o.staging.next_slot,
        retired.last_retired >= o.next_frame - 1,
    ensures
        forall|i: int| 0 <= i < retired.readers.len() ==> retired.slot_retired(i),
        retired.slot_retired(retired.next_slot as int),
{
}

} // verus!
