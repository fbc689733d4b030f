use crate::swapchain::{AcquireImageStatus, PresentImageStatus};
use vstd::prelude::*;

verus! {

/// How beginning a frame went.
#[derive(Copy, Clone, Debug, PartialEq, Eq, Structural)]
pub enum BeginFrameStatus {
    /// The frame's command buffer, given by its raw handle, is recording.
    Acquired(u64),
    /// No image could be acquired; the swapchain must be rebuilt first.
    SwapchainNeedsRebuild,
}

/// How ending a frame went.
#[derive(Copy, Clone, Debug, PartialEq, Eq, Structural)]
pub enum EndFrameStatus {
    Finished,
    SwapchainNeedsRebuild,
}

/// The frame index after `index`, wrapping around after `count` frames.
pub fn next_frame_index(index: usize, count: usize) -> (next: usize)
    requires
        count > 0,
        index < usize::MAX,
    ensures
        next == (index + 1) % (count as int),
        next < count,
{
    (index + 1) % count
}

/// The index reached from `index` after `steps` frames.
pub open spec fn advanced(index: int, count: int, steps: nat) -> int
    decreases steps,
{
    if steps == 0 {
        index
    } else {
        (advanced(index, count, (steps - 1) as nat) + 1) % count
    }
}

/// After `steps` frames the index has moved `steps` places, modulo the count.
pub proof fn lemma_advanced(index: int, count: int, steps: nat)
    requires
        count > 0,
        0 <= index < count,
    ensures
        advanced(index, count, steps) == (index + steps) % count,
    decreases steps,
{
    if steps == 0 {
        vstd::arithmetic::div_mod::lemma_small_mod(index as nat, count as nat);
    } else {
        lemma_advanced(index, count, (steps - 1) as nat);
        vstd::arithmetic::div_mod::lemma_add_mod_noop_right(1, index + steps - 1, count);
    }
}

/// Going through every frame in flight once comes back to the frame one
/// started from.
pub proof fn law_frame_index_cycles(index: int, count: int)
    requires
        count > 0,
        0 <= index < count,
    ensures
        advanced(index, count, count as nat) == index,
{
    lemma_advanced(index, count, count as nat);
    vstd::arithmetic::div_mod::lemma_mod_add_multiples_vanish(index, count);
    vstd::arithmetic::div_mod::lemma_small_mod(index as nat, count as nat);
}

/// The frame and swapchain image bookkeeping of a set of frames in flight.
pub struct FrameCycle {
    frame_count: usize,
    current_frame_index: usize,
    swapchain_image_index: u32,
}

impl FrameCycle {
    /// The number of frames in flight.
    pub closed spec fn spec_count(self) -> nat {
        self.frame_count as nat
    }

    /// The frame that is currently in flight.
    pub closed spec fn spec_current_frame_index(self) -> nat {
        self.current_frame_index as nat
    }

    /// The swapchain image the current frame renders to.
    pub closed spec fn spec_swapchain_image_index(self) -> u32 {
        self.swapchain_image_index
    }

    /// Bookkeeping for `count` frames, starting at frame 0 and image 0.
    pub fn new(count: usize) -> (cycle: Self)
        ensures
            cycle.spec_count() == count,
            cycle.spec_current_frame_index() == 0,
            cycle.spec_swapchain_image_index() == 0,
    {
        FrameCycle { frame_count: count, current_frame_index: 0, swapchain_image_index: 0 }
    }

    /// Get the index of the current swapchain image.
    pub fn swapchain_image_index(&self) -> (index: usize)
        ensures
            index == self.spec_swapchain_image_index(),
    {
        self.swapchain_image_index as usize
    }

    /// Get the index of the frame that is currently in flight.
    pub fn current_frame_index(&self) -> (index: usize)
        ensures
            index == self.spec_current_frame_index(),
    {
        self.current_frame_index
    }

    /// The maximum total frames in flight.
    pub fn count(&self) -> (count: usize)
        ensures
            count == self.spec_count(),
    {
        self.frame_count
    }

    /// Move on to the next frame in flight, wrapping around after the last.
    pub fn advance(&mut self) -> (index: usize)
        requires
            old(self).spec_count() > 0,
            old(self).spec_current_frame_index() < old(self).spec_count(),
        ensures
            index == final(self).spec_current_frame_index(),
            final(self).spec_current_frame_index() == advanced(
                old(self).spec_current_frame_index() as int,
                old(self).spec_count() as int,
                1,
            ),
            final(self).spec_current_frame_index() < final(self).spec_count(),
            final(self).spec_count() == old(self).spec_count(),
            final(self).spec_swapchain_image_index() == old(self).spec_swapchain_image_index(),
    {
        proof {
            reveal_with_fuel(advanced, 2);
        }
        self.current_frame_index = next_frame_index(self.current_frame_index, self.frame_count);
        self.current_frame_index
    }

    /// Take note of the image acquired for the current frame. Returns false,
    /// leaving everything as it was, when the swapchain needs a rebuild.
    pub fn record_acquired_image(&mut self, status: AcquireImageStatus) -> (acquired: bool)
        ensures
            final(self).spec_count() == old(self).spec_count(),
            final(self).spec_current_frame_index() == old(self).spec_current_frame_index(),
            match status {
                AcquireImageStatus::ImageAcequired(index) => acquired
                    && final(self).spec_swapchain_image_index() == index,
                AcquireImageStatus::NeedsRebuild => !acquired
                    && final(self).spec_swapchain_image_index()
                    == old(self).spec_swapchain_image_index(),
            },
    {
        match status {
            AcquireImageStatus::ImageAcequired(index) => {
                self.swapchain_image_index = index;
                true
            },
            AcquireImageStatus::NeedsRebuild => false,
        }
    }
}

/// What beginning a frame reports once the image was (or was not) acquired.
pub fn begin_frame_status(acquired: bool, command_buffer: u64) -> (status: BeginFrameStatus)
    ensures
        acquired ==> status == BeginFrameStatus::Acquired(command_buffer),
        !acquired ==> status == BeginFrameStatus::SwapchainNeedsRebuild,
{
    if acquired {
        BeginFrameStatus::Acquired(command_buffer)
    } else {
        BeginFrameStatus::SwapchainNeedsRebuild
    }
}

/// What ending a frame reports once the image was presented.
pub fn end_frame_status(presented: PresentImageStatus) -> (status: EndFrameStatus)
    ensures
        presented == PresentImageStatus::NeedsRebuild ==> status
            == EndFrameStatus::SwapchainNeedsRebuild,
        presented == PresentImageStatus::Queued ==> status == EndFrameStatus::Finished,
{
    match presented {
        PresentImageStatus::NeedsRebuild => EndFrameStatus::SwapchainNeedsRebuild,
        PresentImageStatus::Queued => EndFrameStatus::Finished,
    }
}

} // verus!
