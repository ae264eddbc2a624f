//! The fixed ring of per-frame synchronization state and the per-image
//! "last fence that touched this image" table. Each of the
//! `MAX_FRAMES_IN_FLIGHT` slots owns an image-available semaphore, a
//! render-finished semaphore and a fence; the engine refers to all three by
//! the slot index alone. The pool records, per slot, whether that slot's
//! fence is outstanding — submitted and not yet observed signaled by the
//! CPU — and, per swapchain image, which slot's submission last claimed it.

use vstd::prelude::*;

use crate::MAX_FRAMES_IN_FLIGHT;

verus! {

/// The ring of frame slots and the images-in-flight table. The slot ring is
/// fixed at construction and never grows; the table has one entry per
/// swapchain image and is rebuilt with the chain.
#[derive(Clone, PartialEq, Eq, Debug)]
pub struct FramePool {
    /// Per slot: whether this slot's fence is outstanding, i.e. a
    /// submission signals it and the CPU has not yet observed it signaled.
    /// Fences are created pre-signaled, so a fresh pool owes no waits.
    pub fence_outstanding: Vec<bool>,
    /// Per swapchain image: the slot whose submission last claimed the
    /// image, or nothing while the image is untouched since (re)creation.
    pub images_in_flight: Vec<Option<usize>>,
}

/// How many slots currently have an outstanding fence.
pub open spec fn outstanding_count(fences: Seq<bool>) -> int
    decreases fences.len(),
{
    if fences.len() == 0 {
        0
    } else {
        outstanding_count(fences.drop_last()) + if fences.last() {
            1int
        } else {
            0int
        }
    }
}

pub proof fn lemma_outstanding_count_bounded(fences: Seq<bool>)
    ensures
        0 <= outstanding_count(fences) <= fences.len(),
    decreases fences.len(),
{
    if fences.len() > 0 {
        lemma_outstanding_count_bounded(fences.drop_last());
    }
}

impl FramePool {
    /// The pool's structural invariant: the slot ring has exactly
    /// `MAX_FRAMES_IN_FLIGHT` entries, and every recorded owner is a real
    /// slot.
    pub open spec fn wf(&self) -> bool {
        &&& self.fence_outstanding@.len() == MAX_FRAMES_IN_FLIGHT
        &&& forall|i: int|
            0 <= i < self.images_in_flight@.len() ==> (#[trigger] self.images_in_flight@[i] matches
                Some(s) ==> s < MAX_FRAMES_IN_FLIGHT)
    }

    /// Builds the pool for a chain of `image_count` images: every slot's
    /// fence pre-signaled (the first wait on each is a no-op) and no image
    /// yet claimed by any slot.
    pub fn new(image_count: usize) -> (pool: FramePool)
        ensures
            pool.wf(),
            pool.fence_outstanding@ == seq![false, false],
            pool.images_in_flight@.len() == image_count,
            forall|i: int| 0 <= i < image_count ==> pool.images_in_flight@[i] is None,
    {
        let mut fence_outstanding: Vec<bool> = Vec::new();
        fence_outstanding.push(false);
        fence_outstanding.push(false);
        assert(fence_outstanding@ =~= seq![false, false]);
        let mut images_in_flight: Vec<Option<usize>> = Vec::new();
        let mut i: usize = 0;
        while i < image_count
            invariant
                i <= image_count,
                images_in_flight@.len() == i,
                forall|j: int| 0 <= j < i ==> images_in_flight@[j] is None,
            decreases image_count - i,
        {
            images_in_flight.push(None);
            i += 1;
        }
        FramePool { fence_outstanding, images_in_flight }
    }

    /// Records that `slot`'s submission now owns image `image_index`.
    pub fn mark_in_use(&mut self, image_index: usize, slot: usize)
        requires
            old(self).wf(),
            image_index < old(self).images_in_flight@.len(),
            slot < MAX_FRAMES_IN_FLIGHT,
        ensures
            final(self).wf(),
            final(self).fence_outstanding == old(self).fence_outstanding,
            final(self).images_in_flight@ == old(self).images_in_flight@.update(
                image_index as int,
                Some(slot),
            ),
    {
        self.images_in_flight.set(image_index, Some(slot));
    }

    /// The slot whose submission last claimed image `image_index`, if any.
    pub fn fence_for(&self, image_index: usize) -> (owner: Option<usize>)
        requires
            image_index < self.images_in_flight@.len(),
        ensures
            owner == self.images_in_flight@[image_index as int],
    {
        self.images_in_flight[image_index]
    }

    /// Records that the CPU observed `slot`'s fence signaled.
    pub fn observe_signaled(&mut self, slot: usize)
        requires
            old(self).wf(),
            slot < MAX_FRAMES_IN_FLIGHT,
        ensures
            final(self).wf(),
            final(self).fence_outstanding@ == old(self).fence_outstanding@.update(
                slot as int,
                false,
            ),
            final(self).images_in_flight == old(self).images_in_flight,
    {
        self.fence_outstanding.set(slot, false);
    }

    /// Records that a submission now signals `slot`'s fence.
    pub fn mark_outstanding(&mut self, slot: usize)
        requires
            old(self).wf(),
            slot < MAX_FRAMES_IN_FLIGHT,
        ensures
            final(self).wf(),
            final(self).fence_outstanding@ == old(self).fence_outstanding@.update(
                slot as int,
                true,
            ),
            final(self).images_in_flight == old(self).images_in_flight,
    {
        self.fence_outstanding.set(slot, true);
    }

    /// However the pool is used, no more than `MAX_FRAMES_IN_FLIGHT`
    /// distinct slots ever have outstanding fences: the ring is that long.
    pub proof fn lemma_outstanding_bounded(&self)
        requires
            self.wf(),
        ensures
            outstanding_count(self.fence_outstanding@) <= MAX_FRAMES_IN_FLIGHT,
    {
        lemma_outstanding_count_bounded(self.fence_outstanding@);
    }
}

} // verus!
