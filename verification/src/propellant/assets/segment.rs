//! Segments: the building parts that constructs are assembled from.
use vstd::prelude::*;

use crate::csg::repr::CsgNodeRepr;
use crate::csg::tree::{flat, CsgTree};
use crate::propellant::assets::Asset;
use crate::propellant::vulkan::buffer::{write_view, BufferView};

verus! {

/// View of a segment's nodes in the GPU buffer.
pub type SegmentBufferView = BufferView<CsgNodeRepr>;

/// A segment, as an asset: a named part with a shell and an interior,
/// each a CSG tree, kept both as authored and flattened for the GPU, with
/// where each flattened tree lives in the GPU buffer.
pub struct Segment {
    name: String,
    shell: CsgTree,
    interior: CsgTree,
    flat_shell: Vec<CsgNodeRepr>,
    flat_interior: Vec<CsgNodeRepr>,
    shell_buffer_view: SegmentBufferView,
    interior_buffer_view: SegmentBufferView,
}

/// A segment as written in an asset file, before it is loaded.
pub struct SerializedSegment {
    pub name: String,
    pub shell: CsgTree,
    pub interior: CsgTree,
}

impl Segment {
    pub closed spec fn spec_shell(&self) -> CsgTree {
        self.shell
    }

    pub closed spec fn spec_interior(&self) -> CsgTree {
        self.interior
    }

    /// The shell in GPU layout.
    pub closed spec fn spec_flat_shell(&self) -> Seq<CsgNodeRepr> {
        self.flat_shell@
    }

    /// The interior in GPU layout.
    pub closed spec fn spec_flat_interior(&self) -> Seq<CsgNodeRepr> {
        self.flat_interior@
    }

    pub closed spec fn spec_shell_view(&self) -> SegmentBufferView {
        self.shell_buffer_view
    }

    pub closed spec fn spec_interior_view(&self) -> SegmentBufferView {
        self.interior_buffer_view
    }

    /// Loads a segment read from an asset file: flattens its shell and its
    /// interior. It has no place in the GPU buffer yet.
    pub fn load(serialized: SerializedSegment) -> (segment: Segment)
        ensures
            segment.spec_name() == serialized.name@,
            segment.spec_shell() == serialized.shell,
            segment.spec_interior() == serialized.interior,
            segment.spec_flat_shell() == flat(serialized.shell),
            segment.spec_flat_interior() == flat(serialized.interior),
            segment.spec_shell_view().spec_offset() == 0,
            segment.spec_shell_view().spec_length() == 0,
            segment.spec_interior_view().spec_offset() == 0,
            segment.spec_interior_view().spec_length() == 0,
    {
        let flat_shell = serialized.shell.flatten();
        let flat_interior = serialized.interior.flatten();
        Segment {
            name: serialized.name,
            shell: serialized.shell,
            interior: serialized.interior,
            flat_shell,
            flat_interior,
            shell_buffer_view: SegmentBufferView::empty(),
            interior_buffer_view: SegmentBufferView::empty(),
        }
    }

    /// Where the shell lives in the GPU buffer.
    pub fn shell_view(&self) -> (view: SegmentBufferView)
        ensures
            view == self.spec_shell_view(),
    {
        self.shell_buffer_view
    }

    /// Where the interior lives in the GPU buffer.
    pub fn interior_view(&self) -> (view: SegmentBufferView)
        ensures
            view == self.spec_interior_view(),
    {
        self.interior_buffer_view
    }

    /// The shell in GPU layout.
    pub fn flat_shell(&self) -> (nodes: &[CsgNodeRepr])
        ensures
            nodes@ == self.spec_flat_shell(),
    {
        self.flat_shell.as_slice()
    }

    /// The interior in GPU layout.
    pub fn flat_interior(&self) -> (nodes: &[CsgNodeRepr])
        ensures
            nodes@ == self.spec_flat_interior(),
    {
        self.flat_interior.as_slice()
    }
}

impl Asset for Segment {
    closed spec fn spec_name(&self) -> Seq<char> {
        self.name@
    }

    fn name(&self) -> (name: &str) {
        self.name.as_str()
    }
}

/// Bytes taken by one node in the GPU buffer: sixteen 4-byte words.
pub const CSG_NODE_REPR_SIZE: usize = 64;

/// Number of GPU nodes of a segment: its shell then its interior.
pub open spec fn segment_node_count(segment: Segment) -> nat {
    segment.spec_flat_shell().len() + segment.spec_flat_interior().len()
}

/// Number of GPU nodes of a list of segments.
pub open spec fn total_node_count(segments: Seq<Segment>) -> nat
    decreases segments.len(),
{
    if segments.len() == 0 {
        0
    } else {
        total_node_count(segments.drop_last()) + segment_node_count(segments.last())
    }
}

/// The segments before `i` take no more nodes than all of them.
proof fn lemma_total_node_count_prefix(segments: Seq<Segment>, i: int)
    requires
        0 <= i <= segments.len(),
    ensures
        total_node_count(segments.take(i)) <= total_node_count(segments),
    decreases segments.len(),
{
    if i < segments.len() {
        assert(segments.drop_last().take(i) =~= segments.take(i));
        lemma_total_node_count_prefix(segments.drop_last(), i);
    } else {
        assert(segments.take(i) =~= segments);
    }
}

/// Segment `i` is placed right after the segments before it: its shell
/// first, then its interior.
pub open spec fn placed_at(segments: Seq<Segment>, i: int) -> bool {
    let offset = total_node_count(segments.take(i));
    let segment = segments[i];
    &&& segment.spec_shell_view().spec_offset() == offset
    &&& segment.spec_shell_view().spec_length() == segment.spec_flat_shell().len()
    &&& segment.spec_interior_view().spec_offset() == offset + segment.spec_flat_shell().len()
    &&& segment.spec_interior_view().spec_length() == segment.spec_flat_interior().len()
}

/// Law: segments placed one after the other tile their buffer. Each
/// segment's shell ends where its interior begins, its interior ends where
/// the next segment's shell begins, and the last interior ends at the end
/// of the buffer, so no two views overlap and no node is left out.
pub proof fn lemma_placed_segments_tile(segments: Seq<Segment>, i: int)
    requires
        0 <= i < segments.len(),
        forall|j: int| 0 <= j < segments.len() ==> #[trigger] placed_at(segments, j),
    ensures
        segments[i].spec_shell_view().spec_offset() + segments[i].spec_shell_view().spec_length()
            == segments[i].spec_interior_view().spec_offset(),
        i + 1 < segments.len() ==> segments[i].spec_interior_view().spec_offset()
            + segments[i].spec_interior_view().spec_length() == segments[i
            + 1].spec_shell_view().spec_offset(),
        i + 1 == segments.len() ==> segments[i].spec_interior_view().spec_offset()
            + segments[i].spec_interior_view().spec_length() == total_node_count(segments),
{
    assert(placed_at(segments, i));
    assert(segments.take(i + 1).drop_last() =~= segments.take(i));
    if i + 1 < segments.len() {
        assert(placed_at(segments, i + 1));
    } else {
        assert(segments.take(i + 1) =~= segments);
    }
}

/// The same segment, whatever its place in the GPU buffer.
pub open spec fn same_content(a: Segment, b: Segment) -> bool {
    &&& a.spec_name() == b.spec_name()
    &&& a.spec_shell() == b.spec_shell()
    &&& a.spec_interior() == b.spec_interior()
    &&& a.spec_flat_shell() == b.spec_flat_shell()
    &&& a.spec_flat_interior() == b.spec_flat_interior()
}

/// The GPU storage holding the nodes of all the segments.
pub struct SegmentGpuAllocation {
    capacity: usize,
}

impl SegmentGpuAllocation {
    /// Number of nodes the buffer holds.
    pub closed spec fn spec_capacity(&self) -> nat {
        self.capacity as nat
    }

    /// Size of the buffer in bytes.
    pub open spec fn spec_buffer_size(&self) -> nat {
        (CSG_NODE_REPR_SIZE * self.spec_capacity()) as nat
    }

    /// Number of nodes the segments need, or `None` when that number does
    /// not fit in a `usize`.
    pub fn required_buffer_size(segments: &[Segment]) -> (size: Option<usize>)
        ensures
            size is Some <==> total_node_count(segments@) <= usize::MAX,
            size matches Some(n) ==> n == total_node_count(segments@),
    {
        let mut total: usize = 0;
        let mut i: usize = 0;
        while i < segments.len()
            invariant
                i <= segments@.len(),
                total == total_node_count(segments@.take(i as int)),
            decreases segments@.len() - i,
        {
            proof {
                assert(segments@.take(i + 1).drop_last() =~= segments@.take(i as int));
            }
            let shell = segments[i].flat_shell.len();
            let interior = segments[i].flat_interior.len();
            if total > usize::MAX - shell || total + shell > usize::MAX - interior {
                proof {
                    lemma_total_node_count_prefix(segments@, i + 1);
                }
                return None;
            }
            total = total + shell + interior;
            i = i + 1;
        }
        proof {
            assert(segments@.take(i as int) =~= segments@);
        }
        Some(total)
    }

    /// Places the segments one after the other in a buffer of `capacity`
    /// nodes, exactly what they need: each segment's shell, then its
    /// interior. Each write lands inside the buffer, so every segment gets
    /// its place; the caller then copies the nodes to those places.
    pub fn create(segments: &mut [Segment], capacity: usize) -> (allocation: Self)
        requires
            old(segments)@.len() > 0,
            capacity == total_node_count(old(segments)@),
        ensures
            allocation.spec_capacity() == capacity,
            allocation.spec_buffer_size() == CSG_NODE_REPR_SIZE * total_node_count(old(segments)@),
            final(segments)@.len() == old(segments)@.len(),
            forall|i: int|
                0 <= i < final(segments)@.len() ==> same_content(
                    #[trigger] final(segments)@[i],
                    old(segments)@[i],
                ) && placed_at(final(segments)@, i),
    {
        let ghost initial = segments@;
        let mut offset: usize = 0;
        let mut i: usize = 0;
        while i < segments.len()
            invariant
                i <= segments@.len(),
                segments@.len() == initial.len(),
                capacity == total_node_count(initial),
                forall|j: int|
                    0 <= j < segments@.len() ==> same_content(#[trigger] segments@[j], initial[j]),
                forall|j: int| 0 <= j < i ==> #[trigger] placed_at(segments@, j),
                offset == total_node_count(segments@.take(i as int)),
                total_node_count(segments@) == total_node_count(initial),
            decreases segments@.len() - i,
        {
            proof {
                lemma_same_counts(segments@, initial);
                lemma_total_node_count_prefix(segments@, i + 1);
                assert(segments@.take(i + 1).drop_last() =~= segments@.take(i as int));
            }
            let ghost before = segments@;
            let shell_length = segments[i].flat_shell.len();
            let interior_length = segments[i].flat_interior.len();
            match write_view(capacity, offset, shell_length) {
                Ok(view) => {
                    segments[i].shell_buffer_view = view;
                    offset = offset + view.length();
                },
                Err(_) => {},
            }
            match write_view(capacity, offset, interior_length) {
                Ok(view) => {
                    segments[i].interior_buffer_view = view;
                    offset = offset + view.length();
                },
                Err(_) => {},
            }
            proof {
                assert(shell_length + interior_length + total_node_count(before.take(i as int))
                    <= capacity);
                lemma_same_counts(segments@, initial);
                assert forall|j: int| 0 <= j < i + 1 implies #[trigger] placed_at(segments@, j) by {
                    assert(segments@.take(j) =~= before.take(j));
                    if j < i {
                        assert(segments@[j] == before[j]);
                        assert(placed_at(before, j));
                    }
                }
                assert(segments@.take(i + 1).drop_last() =~= segments@.take(i as int));
                assert(segments@.take(i as int) =~= before.take(i as int));
            }
            i = i + 1;
        }
        SegmentGpuAllocation { capacity }
    }

    /// Size of the buffer in bytes.
    pub fn buffer_size(&self) -> (size: usize)
        requires
            self.spec_capacity() * CSG_NODE_REPR_SIZE <= usize::MAX,
        ensures
            size == self.spec_buffer_size(),
    {
        self.capacity * CSG_NODE_REPR_SIZE
    }
}

/// Lists of segments with the same contents take the same number of nodes.
proof fn lemma_same_counts(a: Seq<Segment>, b: Seq<Segment>)
    requires
        a.len() == b.len(),
        forall|j: int| 0 <= j < a.len() ==> same_content(#[trigger] a[j], b[j]),
    ensures
        total_node_count(a) == total_node_count(b),
    decreases a.len(),
{
    if a.len() > 0 {
        lemma_same_counts(a.drop_last(), b.drop_last());
        assert(same_content(a[a.len() - 1], b[b.len() - 1]));
    }
}

} // verus!
