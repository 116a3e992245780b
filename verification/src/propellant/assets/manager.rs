//! The game's assets, loaded from an asset directory.
use vstd::prelude::*;
use vstd::string::StringExecFns;

use crate::propellant::assets::collection::{last_named, AssetCollection};
use crate::propellant::assets::segment::{
    placed_at,
    same_content,
    total_node_count,
    Segment,
    SegmentGpuAllocation,
};
use crate::propellant::assets::AssetHandle;

verus! {

/// All the loaded assets: for now the segments, laid out in one GPU buffer.
pub struct AssetManager {
    asset_directory: String,
    segments: AssetCollection<Segment>,
    segment_buffer: SegmentGpuAllocation,
}

/// The segments, laid out one after the other in a buffer that holds them
/// exactly, in the order of `loaded`.
pub open spec fn laid_out(segments: Seq<Segment>, loaded: Seq<Segment>, buffer: nat) -> bool {
    &&& segments.len() == loaded.len()
    &&& buffer == total_node_count(loaded)
    &&& forall|i: int|
        0 <= i < segments.len() ==> same_content(#[trigger] segments[i], loaded[i]) && placed_at(
            segments,
            i,
        )
}

impl AssetManager {
    pub closed spec fn spec_asset_directory(&self) -> Seq<char> {
        self.asset_directory@
    }

    pub closed spec fn spec_segments(&self) -> Seq<Segment> {
        self.segments.spec_assets()
    }

    /// Number of nodes of the segment buffer.
    pub closed spec fn spec_segment_buffer(&self) -> nat {
        self.segment_buffer.spec_capacity()
    }

    /// The directory that holds the segment files of an asset directory.
    pub fn segments_directory(asset_directory: &str) -> (directory: String)
        ensures
            directory@ == asset_directory@ + "/segments"@,
    {
        String::from_str(asset_directory).concat("/segments")
    }

    /// Takes in the segments loaded from the asset directory and lays them
    /// out in a GPU buffer of `buffer_nodes` nodes, the number they need.
    pub fn load(asset_directory: &str, segments: AssetCollection<Segment>, buffer_nodes: usize) -> (manager: Self)
        requires
            segments.spec_assets().len() > 0,
            buffer_nodes == total_node_count(segments.spec_assets()),
        ensures
            manager.spec_asset_directory() == asset_directory@,
            laid_out(manager.spec_segments(), segments.spec_assets(), manager.spec_segment_buffer()),
    {
        let mut segments = segments;
        let segment_buffer = SegmentGpuAllocation::create(segments.assets_mut(), buffer_nodes);
        AssetManager { asset_directory: String::from_str(asset_directory), segments, segment_buffer }
    }

    /// Replaces every asset by those loaded again from the asset directory,
    /// laid out in a new GPU buffer of `buffer_nodes` nodes.
    pub fn reload_all(&mut self, segments: AssetCollection<Segment>, buffer_nodes: usize)
        requires
            segments.spec_assets().len() > 0,
            buffer_nodes == total_node_count(segments.spec_assets()),
        ensures
            final(self).spec_asset_directory() == old(self).spec_asset_directory(),
            laid_out(
                final(self).spec_segments(),
                segments.spec_assets(),
                final(self).spec_segment_buffer(),
            ),
    {
        let mut new_segments = segments;
        let new_segment_buffer = SegmentGpuAllocation::create(
            new_segments.assets_mut(),
            buffer_nodes,
        );
        self.segments = new_segments;
        self.segment_buffer = new_segment_buffer;
    }

    /// The asset directory.
    pub fn asset_directory(&self) -> (directory: &str)
        ensures
            directory@ == self.spec_asset_directory(),
    {
        self.asset_directory.as_str()
    }

    /// The loaded segments.
    pub fn segments(&self) -> (segments: &AssetCollection<Segment>)
        ensures
            segments.spec_assets() == self.spec_segments(),
    {
        &self.segments
    }

    /// The GPU layout of the segments.
    pub fn segment_buffer(&self) -> (buffer: &SegmentGpuAllocation)
        ensures
            buffer.spec_capacity() == self.spec_segment_buffer(),
    {
        &self.segment_buffer
    }

    /// The handle of the segment named `segment_name`, if one is loaded.
    pub fn get_segment_handle(&self, segment_name: &str) -> (handle: Option<AssetHandle<Segment>>)
        ensures
            handle is Some <==> last_named(self.spec_segments(), segment_name@) is Some,
            handle matches Some(h) ==> Some(h.spec_id()) == last_named(
                self.spec_segments(),
                segment_name@,
            ),
    {
        self.segments.get_handle_from_name(segment_name)
    }
}

} // verus!
