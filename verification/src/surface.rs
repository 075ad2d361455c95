//! Presentation-surface state machine: the swapchain, its image list and the
//! size-dependent framebuffers, together with the dirty flag that requests a
//! rebuild after a resize or a stale-swapchain error.

use vstd::prelude::*;

verus! {

/// Outcome of one call to [`PresentationSurface::rebuild`].
#[derive(Clone, Copy, Debug, PartialEq, Eq, Structural)]
pub enum RebuildOutcome {
    /// The surface was not dirty, so nothing had to be rebuilt.
    NotNeeded,
    /// The requested dimensions were transiently unusable (a zero-sized
    /// window mid-resize); the surface stays dirty and the caller retries on
    /// a later loop iteration. This is an expected transient, not a failure.
    SkippedZeroSize,
    /// The swapchain, its image list and one framebuffer per image were
    /// recreated at the requested dimensions, and the dirty flag was cleared.
    Rebuilt,
}

/// Model of the presentation surface that owns the swapchain and the
/// resources whose lifetime is tied to the window size.
///
/// The backend objects themselves (swapchain handle, images, depth buffer,
/// framebuffers) live with the GPU layer; this state tracks what the
/// orchestration logic decides by: the dirty flag, the dimensions the live
/// swapchain was built at, and the resource counts.
pub struct PresentationSurface {
    /// True when the swapchain is stale and must be rebuilt before the next
    /// image acquisition.
    pub dirty: bool,
    /// Width the live swapchain was created at.
    pub width: u32,
    /// Height the live swapchain was created at.
    pub height: u32,
    /// Number of presentable images the live swapchain exposes.
    pub image_count: usize,
    /// Number of framebuffers built over those images.
    pub framebuffer_count: usize,
    /// How many times the swapchain has been replaced; identifies the live
    /// generation of size-dependent resources.
    pub generation: u64,
}

/// `g + 1`, saturating at the top of `u64` (never reached in practice).
pub open spec fn spec_inc_saturating(g: u64) -> u64 {
    if g == u64::MAX {
        g
    } else {
        (g + 1) as u64
    }
}

impl PresentationSurface {
    /// Well-formedness: exactly one framebuffer per swapchain image, and a
    /// swapchain always exposes at least one image.
    pub open spec fn wf(self) -> bool {
        &&& self.framebuffer_count == self.image_count
        &&& self.image_count >= 1
    }

    /// What one rebuild attempt does: nothing when the surface is clean; a
    /// deliberate no-op that leaves the dirty flag set when either requested
    /// dimension is zero; otherwise a full rebuild at the requested
    /// dimensions with one framebuffer per image and the dirty flag cleared.
    pub open spec fn spec_rebuild(self, width: u32, height: u32, image_count: usize) -> (
        PresentationSurface,
        RebuildOutcome,
    ) {
        if !self.dirty {
            (self, RebuildOutcome::NotNeeded)
        } else if width == 0 || height == 0 {
            (self, RebuildOutcome::SkippedZeroSize)
        } else {
            (
                PresentationSurface {
                    dirty: false,
                    width,
                    height,
                    image_count,
                    framebuffer_count: image_count,
                    generation: spec_inc_saturating(self.generation),
                },
                RebuildOutcome::Rebuilt,
            )
        }
    }

    /// A freshly created surface: clean, at the given dimensions, with one
    /// framebuffer per image.
    pub fn new(width: u32, height: u32, image_count: usize) -> (s: PresentationSurface)
        requires
            image_count >= 1,
        ensures
            s.wf(),
            !s.dirty,
            s.width == width,
            s.height == height,
            s.image_count == image_count,
            s.framebuffer_count == image_count,
            s.generation == 0,
    {
        PresentationSurface { dirty: false, width, height, image_count, framebuffer_count: image_count, generation: 0 }
    }

    /// Request a rebuild: set by a resize notification or by a stale
    /// (out-of-date / suboptimal) response from acquire or present.
    pub fn mark_dirty(&mut self)
        ensures
            final(self).dirty,
            final(self).width == old(self).width,
            final(self).height == old(self).height,
            final(self).image_count == old(self).image_count,
            final(self).framebuffer_count == old(self).framebuffer_count,
            final(self).generation == old(self).generation,
    {
        self.dirty = true;
    }

    /// Rebuild the size-dependent resources if (and only if) the surface is
    /// dirty. `width` and `height` are the window's current dimensions;
    /// `image_count` is the number of images the newly created swapchain
    /// reports. A zero dimension is an expected transient: the call is a
    /// no-op that leaves the dirty flag set.
    pub fn rebuild(&mut self, width: u32, height: u32, image_count: usize) -> (r: RebuildOutcome)
        requires
            old(self).wf(),
            image_count >= 1,
        ensures
            final(self).wf(),
            (*final(self), r) == old(self).spec_rebuild(width, height, image_count),
    {
        if !self.dirty {
            RebuildOutcome::NotNeeded
        } else if width == 0 || height == 0 {
            RebuildOutcome::SkippedZeroSize
        } else {
            self.dirty = false;
            self.width = width;
            self.height = height;
            self.image_count = image_count;
            self.framebuffer_count = image_count;
            self.generation = if self.generation < u64::MAX {
                self.generation + 1
            } else {
                self.generation
            };
            RebuildOutcome::Rebuilt
        }
    }
}

/// Law: rebuilding twice in a row with identical dimensions recreates the
/// resources exactly once. The first call rebuilds and clears the dirty
/// flag; the second is a no-op that leaves every count unchanged, so no
/// duplicate image or framebuffer set is ever produced.
pub proof fn lemma_rebuild_idempotent(s: PresentationSurface, width: u32, height: u32, image_count: usize)
    requires
        s.wf(),
        s.dirty,
        width > 0,
        height > 0,
        image_count >= 1,
    ensures
        ({
            let (s1, r1) = s.spec_rebuild(width, height, image_count);
            let (s2, r2) = s1.spec_rebuild(width, height, image_count);
            &&& r1 == RebuildOutcome::Rebuilt
            &&& r2 == RebuildOutcome::NotNeeded
            &&& s2 == s1
            &&& s1.image_count == image_count
            &&& s1.framebuffer_count == image_count
            &&& !s1.dirty
        }),
{
}

/// Law: a dirty surface stays dirty through every rebuild attempt except a
/// successful one at non-zero dimensions; in particular, a zero-sized
/// rebuild never clears the flag and never touches the resource counts.
pub proof fn lemma_dirty_until_valid_rebuild(s: PresentationSurface, width: u32, height: u32, image_count: usize)
    requires
        s.dirty,
    ensures
        ({
            let (s1, r1) = s.spec_rebuild(width, height, image_count);
            &&& (width == 0 || height == 0) ==> (s1 == s && r1 == RebuildOutcome::SkippedZeroSize)
            &&& (width > 0 && height > 0) ==> (!s1.dirty && r1 == RebuildOutcome::Rebuilt)
        }),
{
}

/// The surface after a whole sequence of rebuild attempts, each a
/// `(width, height, image_count)` triple, first attempt first.
pub open spec fn spec_rebuild_all(s: PresentationSurface, attempts: Seq<(u32, u32, usize)>) -> PresentationSurface
    decreases attempts.len(),
{
    if attempts.len() == 0 {
        s
    } else {
        spec_rebuild_all(
            s.spec_rebuild(attempts[0].0, attempts[0].1, attempts[0].2).0,
            attempts.drop_first(),
        )
    }
}

/// Law (dirty recovery): once the surface is dirty — as it becomes on any
/// out-of-date acquire or present — it stays dirty across every sequence
/// of rebuild attempts at zero-sized dimensions. Acquisition demands a
/// clean surface, so no image can be acquired, and nothing submitted
/// against the stale swapchain, until a rebuild at valid dimensions has
/// succeeded.
pub proof fn lemma_dirty_recovery(s: PresentationSurface, attempts: Seq<(u32, u32, usize)>)
    requires
        s.dirty,
        forall|k: int|
            0 <= k < attempts.len() ==> ((#[trigger] attempts[k]).0 == 0 || attempts[k].1 == 0),
    ensures
        spec_rebuild_all(s, attempts).dirty,
        spec_rebuild_all(s, attempts) == s,
    decreases attempts.len(),
{
    if attempts.len() > 0 {
        let s1 = s.spec_rebuild(attempts[0].0, attempts[0].1, attempts[0].2).0;
        assert(s1 == s);
        lemma_dirty_recovery(s1, attempts.drop_first());
    }
}

} // verus!
