//! Frame pacing: which frame slot is recorded, and which in-flight frame
//! each swapchain image waits for.
use vstd::prelude::*;

use crate::propellant::vulkan::MAX_FRAMES_IN_FLIGHTS;

verus! {

/// The bookkeeping of the renderer's synchronization: the frame slot being
/// recorded, among `MAX_FRAMES_IN_FLIGHTS`, and for each swapchain image the
/// slot whose fence guards its last use, if any. The fences and semaphores
/// themselves belong to the slots and images they are indexed by.
pub struct VkSynchronization {
    current_frame: usize,
    image_owners: Vec<Option<usize>>,
}

impl VkSynchronization {
    #[verifier::type_invariant]
    spec fn inv(self) -> bool {
        &&& self.current_frame < MAX_FRAMES_IN_FLIGHTS
        &&& forall|i: int|
            0 <= i < self.image_owners@.len() ==> (#[trigger] self.image_owners@[i] matches Some(
                f,
            ) ==> f < MAX_FRAMES_IN_FLIGHTS)
    }

    /// The frame slot being recorded.
    pub closed spec fn spec_frame(&self) -> nat {
        self.current_frame as nat
    }

    /// For each swapchain image, the slot whose fence guards it.
    pub closed spec fn spec_image_owners(&self) -> Seq<Option<usize>> {
        self.image_owners@
    }

    /// Starts at slot 0, with no image in use yet.
    pub fn create(swapchain_image_count: usize) -> (sync: Self)
        ensures
            sync.spec_frame() == 0,
            sync.spec_image_owners() == Seq::new(swapchain_image_count as nat, |i: int| None::<usize>),
    {
        let mut image_owners = Vec::new();
        let mut i: usize = 0;
        while i < swapchain_image_count
            invariant
                i <= swapchain_image_count,
                image_owners@ == Seq::new(i as nat, |k: int| None::<usize>),
            decreases swapchain_image_count - i,
        {
            image_owners.push(None);
            i = i + 1;
        }
        VkSynchronization { current_frame: 0, image_owners }
    }

    /// The frame slot being recorded; always below `MAX_FRAMES_IN_FLIGHTS`.
    pub fn frame_index(&self) -> (frame: usize)
        ensures
            frame == self.spec_frame(),
            frame < MAX_FRAMES_IN_FLIGHTS,
    {
        proof {
            use_type_invariant(self);
        }
        self.current_frame
    }

    /// Number of swapchain images tracked.
    pub fn image_count(&self) -> (count: usize)
        ensures
            count == self.spec_image_owners().len(),
    {
        self.image_owners.len()
    }

    /// The slot whose fence guards `image_index`, if the image was used
    /// since the swapchain was made. Nothing changes: the caller waits on
    /// that fence, then binds the image with `claim_image`.
    pub fn image_owner(&self, image_index: usize) -> (owner: Option<usize>)
        requires
            image_index < self.spec_image_owners().len(),
        ensures
            owner == self.spec_image_owners()[image_index as int],
            owner matches Some(f) ==> f < MAX_FRAMES_IN_FLIGHTS,
    {
        proof {
            use_type_invariant(self);
        }
        self.image_owners[image_index]
    }

    /// Binds `image_index` to the current slot. Returns the slot whose fence
    /// must be waited for first: the one that last used the image, if any.
    pub fn claim_image(&mut self, image_index: usize) -> (wait_for: Option<usize>)
        requires
            image_index < old(self).spec_image_owners().len(),
        ensures
            wait_for == old(self).spec_image_owners()[image_index as int],
            wait_for matches Some(f) ==> f < MAX_FRAMES_IN_FLIGHTS,
            final(self).spec_frame() == old(self).spec_frame(),
            final(self).spec_image_owners() == old(self).spec_image_owners().update(
                image_index as int,
                Some(old(self).spec_frame() as usize),
            ),
    {
        proof {
            use_type_invariant(&*self);
        }
        let previous = self.image_owners[image_index];
        let current = self.current_frame;
        let mut owners = Vec::new();
        std::mem::swap(&mut owners, &mut self.image_owners);
        owners.set(image_index, Some(current));
        self.image_owners = owners;
        previous
    }

    /// Moves on to the next frame slot, after a submit.
    pub fn advance(&mut self)
        ensures
            final(self).spec_frame() == (old(self).spec_frame() + 1) % (MAX_FRAMES_IN_FLIGHTS as nat),
            final(self).spec_image_owners() == old(self).spec_image_owners(),
    {
        proof {
            use_type_invariant(&*self);
        }
        self.current_frame = (self.current_frame + 1) % MAX_FRAMES_IN_FLIGHTS;
    }
}

} // verus!
