use supernova::csg::ops::Round;
use supernova::csg::primitive::Sphere;
use supernova::csg::tree::CsgTree;
use supernova::csg::types::Vec3;
use supernova::propellant::assets::collection::AssetCollection;
use supernova::propellant::assets::segment::{SegmentGpuAllocation, SerializedSegment, CSG_NODE_REPR_SIZE};
use supernova::propellant::assets::{Asset, AssetHandle, AssetManager, Segment};
use supernova::propellant::components::SegmentRenderer;

fn sphere() -> CsgTree {
    CsgTree::Sphere(Sphere { offset: Vec3::new(0, 0, 0), radius: 1.0f32.to_bits() })
}

fn rounded() -> CsgTree {
    CsgTree::Round { node: Round { radius: 0.5f32.to_bits() }, child: Box::new(sphere()) }
}

fn segment(name: &str, shell: CsgTree, interior: CsgTree) -> Segment {
    Segment::load(SerializedSegment { name: name.to_string(), shell, interior })
}

#[test]
fn loading_flattens_both_trees() {
    let s = segment("tube", rounded(), CsgTree::Empty);
    assert_eq!(s.name(), "tube");
    assert_eq!(s.flat_shell().len(), 2);
    assert_eq!(s.flat_interior().len(), 1);
    assert_eq!(s.flat_shell(), rounded().flatten().as_slice());
    assert_eq!((s.shell_view().offset(), s.shell_view().length()), (0, 0));
    assert_eq!((s.interior_view().offset(), s.interior_view().length()), (0, 0));
}

#[test]
fn lookup_by_name_takes_last() {
    let collection = AssetCollection::new(vec![
        segment("a", sphere(), sphere()),
        segment("b", sphere(), sphere()),
        segment("a", rounded(), sphere()),
    ]);
    assert_eq!(collection.count(), 3);
    assert_eq!(collection.assets().len(), 3);
    assert_eq!(collection.get_handle_from_name("a").map(|h| h.id()), Some(2));
    assert_eq!(collection.get_handle_from_name("b").map(|h| h.id()), Some(1));
    assert!(collection.get_handle_from_name("c").is_none());
    assert!(AssetCollection::<Segment>::new(vec![]).get_handle_from_name("a").is_none());
}

#[test]
fn segments_tile_the_buffer() {
    let mut collection = AssetCollection::new(vec![
        segment("a", rounded(), sphere()),
        segment("b", CsgTree::Union { children: vec![sphere(), sphere()] }, rounded()),
    ]);
    let size = SegmentGpuAllocation::required_buffer_size(collection.assets()).unwrap();
    assert_eq!(size, 3 + 5);
    let allocation = SegmentGpuAllocation::create(collection.assets_mut(), size);
    assert_eq!(allocation.buffer_size(), 8 * CSG_NODE_REPR_SIZE);
    let assets = collection.assets();
    let views: Vec<(usize, usize, usize, usize)> = assets
        .iter()
        .map(|s| (s.shell_view().offset(), s.shell_view().length(), s.interior_view().offset(), s.interior_view().length()))
        .collect();
    assert_eq!(views, vec![(0, 2, 2, 1), (3, 3, 6, 2)]);
}

#[test]
fn asset_manager_loads_and_reloads() {
    assert_eq!(AssetManager::segments_directory("assets"), "assets/segments");
    let collection = AssetCollection::new(vec![segment("tube_small", sphere(), sphere())]);
    let size = SegmentGpuAllocation::required_buffer_size(collection.assets()).unwrap();
    let mut manager = AssetManager::load("assets", collection, size);
    assert_eq!(manager.asset_directory(), "assets");
    assert_eq!(manager.segment_buffer().buffer_size(), 2 * CSG_NODE_REPR_SIZE);
    assert_eq!(manager.get_segment_handle("tube_small").map(|h| h.id()), Some(0));
    assert!(manager.get_segment_handle("tube_large").is_none());

    let collection = AssetCollection::new(vec![
        segment("tube_large", rounded(), rounded()),
        segment("tube_small", sphere(), sphere()),
    ]);
    let size = SegmentGpuAllocation::required_buffer_size(collection.assets()).unwrap();
    manager.reload_all(collection, size);
    assert_eq!(manager.asset_directory(), "assets");
    assert_eq!(manager.segments().count(), 2);
    assert_eq!(manager.get_segment_handle("tube_small").map(|h| h.id()), Some(1));
    let second = &manager.segments().assets()[1];
    assert_eq!((second.shell_view().offset(), second.interior_view().offset()), (4, 5));
}

#[test]
fn segment_renderer_keeps_handle() {
    let renderer = SegmentRenderer::new(AssetHandle::<Segment>::new(4));
    assert_eq!(renderer.segment().id(), 4);
}
