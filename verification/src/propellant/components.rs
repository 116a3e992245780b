//! Components attached to scene entities.
use vstd::prelude::*;

use crate::propellant::assets::{AssetHandle, Segment};

verus! {

/// Handle to the segment asset an entity draws.
pub type SegmentAssetHandle = AssetHandle<Segment>;

/// Makes an entity draw a segment.
pub struct SegmentRenderer {
    segment: SegmentAssetHandle,
}

impl SegmentRenderer {
    pub closed spec fn spec_segment(&self) -> nat {
        self.segment.spec_id()
    }

    pub fn new(segment: SegmentAssetHandle) -> (renderer: Self)
        ensures
            renderer.spec_segment() == segment.spec_id(),
    {
        SegmentRenderer { segment }
    }

    /// The drawn segment.
    pub fn segment(&self) -> (segment: &SegmentAssetHandle)
        ensures
            segment.spec_id() == self.spec_segment(),
    {
        &self.segment
    }
}

} // verus!
