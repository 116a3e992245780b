//! Choice of the queue families the engine submits work to.
use vstd::prelude::*;

use crate::propellant::vulkan::vk;

verus! {

/// Index of a queue family.
pub type QueueFamilyIndex = u32;

/// What the engine reads of a queue family: its capability bits and how
/// many queues it offers.
#[derive(Debug, Clone, Copy, PartialEq, Eq)]
pub struct QueueFamily {
    pub queue_flags: u32,
    pub queue_count: u32,
}

/// The families chosen for each kind of work.
#[derive(Debug, Clone, Copy, PartialEq, Eq)]
pub struct QueueFamilyIndices {
    /// The family that handles graphics work and presentation.
    pub graphics: QueueFamilyIndex,
    /// Family for asynchronous transfers.
    pub transfer: QueueFamilyIndex,
    /// Family for asynchronous compute.
    pub compute: QueueFamilyIndex,
}

/// Number of bits set.
pub open spec fn popcount(x: u32) -> nat
    decreases x,
{
    if x == 0 {
        0
    } else {
        (x % 2) as nat + popcount(x / 2)
    }
}

/// Whether `flags` holds every bit of `wanted`.
pub open spec fn has_flags(flags: u32, wanted: u32) -> bool {
    flags & wanted == wanted
}

/// A number has no more bits set than its value.
proof fn lemma_popcount_bound(x: u32)
    ensures
        popcount(x) <= x,
    decreases x,
{
    if x != 0 {
        lemma_popcount_bound(x / 2);
    }
}

/// Counts the bits set in `x`.
fn count_ones(x: u32) -> (n: u32)
    ensures
        n == popcount(x),
{
    let mut rest = x;
    let mut n: u32 = 0;
    proof {
        lemma_popcount_bound(x);
    }
    while rest != 0
        invariant
            n + popcount(rest) == popcount(x),
            popcount(x) <= u32::MAX,
        decreases rest,
    {
        n = n + rest % 2;
        rest = rest / 2;
    }
    n
}

/// Family `i` can do graphics work and present to the surface.
pub open spec fn graphics_candidate(families: Seq<QueueFamily>, present_support: Seq<bool>, i: int) -> bool {
    &&& 0 <= i < families.len()
    &&& has_flags(families[i].queue_flags, vk::QUEUE_GRAPHICS_BIT)
    &&& present_support[i]
}

/// Family `i` is a dedicated family with the `wanted` capability: another
/// family than `graphics`, without graphics support.
pub open spec fn dedicated_candidate(families: Seq<QueueFamily>, graphics: u32, wanted: u32, i: int) -> bool {
    &&& 0 <= i < families.len()
    &&& i != graphics
    &&& has_flags(families[i].queue_flags, wanted)
    &&& !has_flags(families[i].queue_flags, vk::QUEUE_GRAPHICS_BIT)
}

/// The graphics family: among the candidates, one with the most capability
/// bits, the last of them on a tie; `None` when there is no candidate.
pub open spec fn is_best_graphics(families: Seq<QueueFamily>, present_support: Seq<bool>, r: Option<u32>) -> bool {
    match r {
        None => forall|j: int| !#[trigger] graphics_candidate(families, present_support, j),
        Some(g) => {
            &&& graphics_candidate(families, present_support, g as int)
            &&& forall|j: int| #[trigger]
                graphics_candidate(families, present_support, j) ==> popcount(families[j].queue_flags)
                    <= popcount(families[g as int].queue_flags)
            &&& forall|j: int|
                g < j && #[trigger] graphics_candidate(families, present_support, j) ==> popcount(
                    families[j].queue_flags,
                ) < popcount(families[g as int].queue_flags)
        },
    }
}

/// The transfer family: among the dedicated transfer families, one with the
/// fewest capability bits, the first of them on a tie.
pub open spec fn is_best_transfer(families: Seq<QueueFamily>, graphics: u32, r: Option<u32>) -> bool {
    let wanted = vk::QUEUE_TRANSFER_BIT;
    match r {
        None => forall|j: int| !#[trigger] dedicated_candidate(families, graphics, wanted, j),
        Some(t) => {
            &&& dedicated_candidate(families, graphics, wanted, t as int)
            &&& forall|j: int| #[trigger]
                dedicated_candidate(families, graphics, wanted, j) ==> popcount(
                    families[t as int].queue_flags,
                ) <= popcount(families[j].queue_flags)
            &&& forall|j: int|
                j < t && #[trigger] dedicated_candidate(families, graphics, wanted, j) ==> popcount(
                    families[t as int].queue_flags,
                ) < popcount(families[j].queue_flags)
        },
    }
}

/// The compute family: among the dedicated compute families, one with the
/// most queues, the last of them on a tie.
pub open spec fn is_best_compute(families: Seq<QueueFamily>, graphics: u32, r: Option<u32>) -> bool {
    let wanted = vk::QUEUE_COMPUTE_BIT;
    match r {
        None => forall|j: int| !#[trigger] dedicated_candidate(families, graphics, wanted, j),
        Some(c) => {
            &&& dedicated_candidate(families, graphics, wanted, c as int)
            &&& forall|j: int| #[trigger]
                dedicated_candidate(families, graphics, wanted, j) ==> families[j].queue_count
                    <= families[c as int].queue_count
            &&& forall|j: int|
                c < j && #[trigger] dedicated_candidate(families, graphics, wanted, j)
                    ==> families[j].queue_count < families[c as int].queue_count
        },
    }
}

/// Finds the most suitable graphics family, given for each family whether
/// it can present to the window surface.
pub fn find_graphics_queue(families: &[QueueFamily], present_support: &[bool]) -> (best: Option<
    QueueFamilyIndex,
>)
    requires
        families@.len() == present_support@.len(),
        families@.len() <= u32::MAX,
    ensures
        is_best_graphics(families@, present_support@, best),
{
    let graphics_bit = vk::queue_flags_graphics();
    let mut best: Option<u32> = None;
    let mut best_key: u32 = 0;
    let mut i: usize = 0;
    while i < families.len()
        invariant
            i <= families@.len(),
            families@.len() == present_support@.len(),
            families@.len() <= u32::MAX,
            graphics_bit == vk::QUEUE_GRAPHICS_BIT,
            match best {
                None => forall|j: int|
                    0 <= j < i ==> !#[trigger] graphics_candidate(families@, present_support@, j),
                Some(g) => {
                    &&& g < i
                    &&& graphics_candidate(families@, present_support@, g as int)
                    &&& best_key == popcount(families@[g as int].queue_flags)
                    &&& forall|j: int|
                        0 <= j < i && #[trigger] graphics_candidate(families@, present_support@, j)
                            ==> popcount(families@[j].queue_flags) <= best_key
                    &&& forall|j: int|
                        g < j < i && #[trigger] graphics_candidate(families@, present_support@, j)
                            ==> popcount(families@[j].queue_flags) < best_key
                },
            },
        decreases families@.len() - i,
    {
        let flags = families[i].queue_flags;
        if flags & graphics_bit == graphics_bit && present_support[i] {
            let key = count_ones(flags);
            if best.is_none() || key >= best_key {
                best = Some(i as u32);
                best_key = key;
            }
        }
        i = i + 1;
    }
    best
}

/// Finds a family dedicated to the `wanted` capability, keeping the one
/// with the fewest capability bits (or, with `by_queue_count`, the one with
/// the most queues, the last of them on a tie).
fn find_dedicated_queue(families: &[QueueFamily], graphics: QueueFamilyIndex, wanted: u32, by_queue_count: bool) -> (best: Option<QueueFamilyIndex>)
    requires
        families@.len() <= u32::MAX,
        wanted == vk::QUEUE_TRANSFER_BIT || wanted == vk::QUEUE_COMPUTE_BIT,
        by_queue_count <==> wanted == vk::QUEUE_COMPUTE_BIT,
    ensures
        wanted == vk::QUEUE_TRANSFER_BIT ==> is_best_transfer(families@, graphics, best),
        wanted == vk::QUEUE_COMPUTE_BIT ==> is_best_compute(families@, graphics, best),
{
    let graphics_bit = vk::queue_flags_graphics();
    let mut best: Option<u32> = None;
    let mut best_key: u32 = 0;
    let mut i: usize = 0;
    while i < families.len()
        invariant
            i <= families@.len(),
            families@.len() <= u32::MAX,
            graphics_bit == vk::QUEUE_GRAPHICS_BIT,
            wanted == vk::QUEUE_TRANSFER_BIT || wanted == vk::QUEUE_COMPUTE_BIT,
            by_queue_count <==> wanted == vk::QUEUE_COMPUTE_BIT,
            match best {
                None => forall|j: int|
                    0 <= j < i ==> !#[trigger] dedicated_candidate(families@, graphics, wanted, j),
                Some(b) => {
                    &&& b < i
                    &&& dedicated_candidate(families@, graphics, wanted, b as int)
                    &&& !by_queue_count ==> {
                        &&& best_key == popcount(families@[b as int].queue_flags)
                        &&& forall|j: int|
                            0 <= j < i && #[trigger] dedicated_candidate(families@, graphics, wanted, j)
                                ==> best_key <= popcount(families@[j].queue_flags)
                        &&& forall|j: int|
                            0 <= j < b && #[trigger] dedicated_candidate(families@, graphics, wanted, j)
                                ==> best_key < popcount(families@[j].queue_flags)
                    }
                    &&& by_queue_count ==> {
                        &&& best_key == families@[b as int].queue_count
                        &&& forall|j: int|
                            0 <= j < i && #[trigger] dedicated_candidate(families@, graphics, wanted, j)
                                ==> families@[j].queue_count <= best_key
                        &&& forall|j: int|
                            b < j < i && #[trigger] dedicated_candidate(families@, graphics, wanted, j)
                                ==> families@[j].queue_count < best_key
                    }
                },
            },
        decreases families@.len() - i,
    {
        let flags = families[i].queue_flags;
        if i as u32 != graphics && flags & wanted == wanted && flags & graphics_bit != graphics_bit {
            if by_queue_count {
                let key = families[i].queue_count;
                if best.is_none() || key >= best_key {
                    best = Some(i as u32);
                    best_key = key;
                }
            } else {
                let key = count_ones(flags);
                if best.is_none() || key < best_key {
                    best = Some(i as u32);
                    best_key = key;
                }
            }
        }
        i = i + 1;
    }
    best
}

/// Finds the most specialised family dedicated to transfers, other than the
/// graphics family.
pub fn find_transfer_queue(families: &[QueueFamily], graphics: QueueFamilyIndex) -> (best: Option<QueueFamilyIndex>)
    requires
        families@.len() <= u32::MAX,
    ensures
        is_best_transfer(families@, graphics, best),
{
    let wanted = vk::queue_flags_transfer();
    find_dedicated_queue(families, graphics, wanted, false)
}

/// Finds the family dedicated to compute with the most queues, other than
/// the graphics family.
pub fn find_compute_queue(families: &[QueueFamily], graphics: QueueFamilyIndex) -> (best: Option<QueueFamilyIndex>)
    requires
        families@.len() <= u32::MAX,
    ensures
        is_best_compute(families@, graphics, best),
{
    let wanted = vk::queue_flags_compute();
    find_dedicated_queue(families, graphics, wanted, true)
}

impl QueueFamilyIndices {
    /// The families the engine picks: the best graphics family, and for
    /// transfers and compute the best dedicated family, or the graphics one
    /// when there is none.
    pub open spec fn is_choice(families: Seq<QueueFamily>, present_support: Seq<bool>, r: Option<QueueFamilyIndices>) -> bool {
        match r {
            None => is_best_graphics(families, present_support, None),
            Some(ix) => {
                &&& is_best_graphics(families, present_support, Some(ix.graphics))
                &&& is_best_transfer(families, ix.graphics, Some(ix.transfer)) || (is_best_transfer(
                    families,
                    ix.graphics,
                    None,
                ) && ix.transfer == ix.graphics)
                &&& is_best_compute(families, ix.graphics, Some(ix.compute)) || (is_best_compute(
                    families,
                    ix.graphics,
                    None,
                ) && ix.compute == ix.graphics)
            },
        }
    }

    /// Picks the queue families for the engine, given the device's families
    /// and whether each of them can present to the window surface. `None`
    /// when no family can do graphics and present: the device is unsuitable.
    pub fn get(families: &[QueueFamily], present_support: &[bool]) -> (indices: Option<QueueFamilyIndices>)
        requires
            families@.len() == present_support@.len(),
            families@.len() <= u32::MAX,
        ensures
            Self::is_choice(families@, present_support@, indices),
    {
        let graphics = match find_graphics_queue(families, present_support) {
            Some(index) => index,
            None => return None,
        };
        let transfer = match find_transfer_queue(families, graphics) {
            Some(index) => index,
            None => graphics,
        };
        let compute = match find_compute_queue(families, graphics) {
            Some(index) => index,
            None => graphics,
        };
        Some(QueueFamilyIndices { graphics, transfer, compute })
    }

    /// The distinct chosen families, in increasing order: one queue is
    /// created per family.
    pub fn unique_families(&self) -> (families: Vec<QueueFamilyIndex>)
        ensures
            forall|i: int, j: int| 0 <= i < j < families@.len() ==> families@[i] < families@[j],
            forall|x: u32|
                families@.contains(x) <==> (x == self.graphics || x == self.transfer || x
                    == self.compute),
    {
        let (mut a, mut b, mut c) = (self.graphics, self.transfer, self.compute);
        if a > b {
            let t = a;
            a = b;
            b = t;
        }
        if b > c {
            let t = b;
            b = c;
            c = t;
        }
        if a > b {
            let t = a;
            a = b;
            b = t;
        }
        let mut families = Vec::new();
        families.push(a);
        if b > a {
            families.push(b);
        }
        if c > b {
            families.push(c);
        }
        proof {
            assert forall|x: u32| families@.contains(x) <==> (x == self.graphics || x
                == self.transfer || x == self.compute) by {
                if x == self.graphics || x == self.transfer || x == self.compute {
                    assert(x == a || x == b || x == c);
                    if x == a {
                        assert(families@[0] == x);
                    } else if x == b {
                        if b > a {
                            assert(families@[1] == x);
                        } else {
                            assert(families@[0] == x);
                        }
                    } else {
                        if c > b {
                            assert(families@[families@.len() - 1] == x);
                        } else if b > a {
                            assert(families@[1] == x);
                        } else {
                            assert(families@[0] == x);
                        }
                    }
                }
            }
        }
        families
    }
}

/// The graphics family is determined: two families that both meet the
/// choice are the same.
proof fn lemma_best_graphics_unique(families: Seq<QueueFamily>, present_support: Seq<bool>, a: Option<u32>, b: Option<u32>)
    requires
        is_best_graphics(families, present_support, a),
        is_best_graphics(families, present_support, b),
    ensures
        a == b,
{
    if a is Some && b is Some {
        let x = a->0;
        let y = b->0;
        assert(graphics_candidate(families, present_support, x as int));
        assert(graphics_candidate(families, present_support, y as int));
    } else if a is Some {
        assert(graphics_candidate(families, present_support, a->0 as int));
    } else if b is Some {
        assert(graphics_candidate(families, present_support, b->0 as int));
    }
}

/// A dedicated transfer family is determined.
proof fn lemma_best_transfer_unique(families: Seq<QueueFamily>, graphics: u32, a: Option<u32>, b: Option<u32>)
    requires
        is_best_transfer(families, graphics, a),
        is_best_transfer(families, graphics, b),
    ensures
        a == b,
{
    let w = vk::QUEUE_TRANSFER_BIT;
    if a is Some && b is Some {
        assert(dedicated_candidate(families, graphics, w, a->0 as int));
        assert(dedicated_candidate(families, graphics, w, b->0 as int));
    } else if a is Some {
        assert(dedicated_candidate(families, graphics, w, a->0 as int));
    } else if b is Some {
        assert(dedicated_candidate(families, graphics, w, b->0 as int));
    }
}

/// A dedicated compute family is determined.
proof fn lemma_best_compute_unique(families: Seq<QueueFamily>, graphics: u32, a: Option<u32>, b: Option<u32>)
    requires
        is_best_compute(families, graphics, a),
        is_best_compute(families, graphics, b),
    ensures
        a == b,
{
    let w = vk::QUEUE_COMPUTE_BIT;
    if a is Some && b is Some {
        assert(dedicated_candidate(families, graphics, w, a->0 as int));
        assert(dedicated_candidate(families, graphics, w, b->0 as int));
    } else if a is Some {
        assert(dedicated_candidate(families, graphics, w, a->0 as int));
    } else if b is Some {
        assert(dedicated_candidate(families, graphics, w, b->0 as int));
    }
}

impl QueueFamilyIndices {
    /// Law: the choice of queue families is determined by the device: two
    /// answers that both meet it are the same, so the engine picks the same
    /// families for the same device every time.
    pub proof fn lemma_choice_unique(
        families: Seq<QueueFamily>,
        present_support: Seq<bool>,
        a: Option<QueueFamilyIndices>,
        b: Option<QueueFamilyIndices>,
    )
        requires
            Self::is_choice(families, present_support, a),
            Self::is_choice(families, present_support, b),
        ensures
            a == b,
    {
        match (a, b) {
            (Some(x), Some(y)) => {
                lemma_best_graphics_unique(families, present_support, Some(x.graphics), Some(y.graphics));
                let g = x.graphics;
                if is_best_transfer(families, g, Some(x.transfer)) && is_best_transfer(families, g, Some(y.transfer)) {
                    lemma_best_transfer_unique(families, g, Some(x.transfer), Some(y.transfer));
                } else if is_best_transfer(families, g, Some(x.transfer)) {
                    lemma_best_transfer_unique(families, g, Some(x.transfer), None);
                } else if is_best_transfer(families, g, Some(y.transfer)) {
                    lemma_best_transfer_unique(families, g, Some(y.transfer), None);
                }
                if is_best_compute(families, g, Some(x.compute)) && is_best_compute(families, g, Some(y.compute)) {
                    lemma_best_compute_unique(families, g, Some(x.compute), Some(y.compute));
                } else if is_best_compute(families, g, Some(x.compute)) {
                    lemma_best_compute_unique(families, g, Some(x.compute), None);
                } else if is_best_compute(families, g, Some(y.compute)) {
                    lemma_best_compute_unique(families, g, Some(y.compute), None);
                }
            },
            (Some(x), None) => {
                lemma_best_graphics_unique(families, present_support, Some(x.graphics), None);
            },
            (None, Some(y)) => {
                lemma_best_graphics_unique(families, present_support, Some(y.graphics), None);
            },
            (None, None) => {},
        }
    }
}

} // verus!
