//! Queues owned by the device, or shared with another of its queues.
use vstd::prelude::*;

use crate::propellant::vulkan::queue_family_indices::QueueFamilyIndices;
use crate::propellant::vulkan::reference::VkRef;

verus! {

/// A queue that is either owned or shared. An owned queue is ours to
/// destroy; a shared one belongs to another holder.
#[derive(Debug)]
pub enum VkSharableQueue<Q> {
    Owned(Q),
    Shared(VkRef<Q>),
}

impl<Q> VkSharableQueue<Q> {
    /// `Owned` or `Shared`, for logs.
    pub fn ownership(&self) -> (label: &'static str)
        ensures
            self is Owned ==> label@ == "Owned"@,
            self is Shared ==> label@ == "Shared"@,
    {
        match self {
            Self::Owned(_) => "Owned",
            Self::Shared(_) => "Shared",
        }
    }

    /// The queue, owned or not.
    pub fn as_ref(&self) -> (queue: &Q)
        ensures
            self matches VkSharableQueue::Owned(q) ==> *queue == q,
            self matches VkSharableQueue::Shared(r) ==> *queue == r.spec_inner(),
    {
        match self {
            Self::Owned(queue) => queue,
            Self::Shared(queue) => queue.get(),
        }
    }
}

/// Which of the device's transfer and compute queues reuse a queue created
/// before them. The graphics queue is always created first.
#[derive(Debug, Clone, Copy, PartialEq, Eq)]
pub struct QueueSharing {
    /// The transfer family is the graphics family.
    pub transfer_shared: bool,
    /// The compute family is the graphics or the transfer family.
    pub compute_shared: bool,
}

/// Which queues reuse a queue created before them, as `plan_queue_sharing`
/// decides it.
pub open spec fn spec_queue_sharing(indices: QueueFamilyIndices) -> QueueSharing {
    QueueSharing {
        transfer_shared: indices.transfer == indices.graphics,
        compute_shared: indices.compute == indices.graphics || indices.compute == indices.transfer,
    }
}

/// The families of the queues the device creates, in order: the graphics
/// queue, then the transfer and the compute queues that are not shared.
pub open spec fn created_queue_families(indices: QueueFamilyIndices) -> Seq<u32> {
    let sharing = spec_queue_sharing(indices);
    seq![indices.graphics] + (if sharing.transfer_shared {
        Seq::<u32>::empty()
    } else {
        seq![indices.transfer]
    }) + (if sharing.compute_shared {
        Seq::<u32>::empty()
    } else {
        seq![indices.compute]
    })
}

/// Law: the device creates exactly one queue per chosen family. The
/// families of the created queues are pairwise distinct and are exactly the
/// graphics, transfer and compute families, the families that
/// `unique_families` lists for the device's queue create infos. A shared
/// transfer queue is the graphics queue, of the transfer family; a shared
/// compute queue is the graphics or the transfer queue, of the compute
/// family.
pub proof fn lemma_device_queues(indices: QueueFamilyIndices)
    ensures
        created_queue_families(indices).no_duplicates(),
        forall|x: u32|
            created_queue_families(indices).contains(x) <==> (x == indices.graphics || x
                == indices.transfer || x == indices.compute),
        spec_queue_sharing(indices).transfer_shared ==> indices.transfer == indices.graphics,
        spec_queue_sharing(indices).compute_shared ==> indices.compute == indices.graphics
            || indices.compute == indices.transfer,
        !spec_queue_sharing(indices).transfer_shared ==> indices.transfer != indices.graphics,
        !spec_queue_sharing(indices).compute_shared ==> indices.compute != indices.graphics
            && indices.compute != indices.transfer,
{
    let c = created_queue_families(indices);
    let g = indices.graphics;
    let t = indices.transfer;
    let k = indices.compute;
    let ts = spec_queue_sharing(indices).transfer_shared;
    let cs = spec_queue_sharing(indices).compute_shared;
    if !ts && !cs {
        assert(c =~= seq![g, t, k]);
    } else if !ts {
        assert(c =~= seq![g, t]);
    } else if !cs {
        assert(c =~= seq![g, k]);
    } else {
        assert(c =~= seq![g]);
    }
    assert forall|x: u32| c.contains(x) <==> (x == g || x == t || x == k) by {
        if x == g {
            assert(c[0] == g);
        }
        if x == t && !ts {
            assert(c[1] == t);
        }
        if x == k && !cs {
            assert(c[c.len() - 1] == k);
        }
    }
}

/// Decides which queues the device creates: one for the graphics family,
/// then one for the transfer family and one for the compute family unless
/// a queue of that family was already created, in which case it is shared.
pub fn plan_queue_sharing(indices: QueueFamilyIndices) -> (sharing: QueueSharing)
    ensures
        sharing == spec_queue_sharing(indices),
        sharing.transfer_shared == (indices.transfer == indices.graphics),
        sharing.compute_shared == (indices.compute == indices.graphics || indices.compute
            == indices.transfer),
{
    let transfer_shared = indices.transfer == indices.graphics;
    let compute_shared = indices.compute == indices.graphics || indices.compute == indices.transfer;
    QueueSharing { transfer_shared, compute_shared }
}

} // verus!
