use supernova::csg::bin_op::BinOp;
use supernova::csg::packed::PackedCsgTrees;
use supernova::csg::primitive::Sphere;
use supernova::csg::repr::CsgNodeRepr;
use supernova::csg::types::Vec3;
use supernova::csg::unary_op::UnaryOp;
use supernova::csg::CsgNode;

fn zero() -> Vec3 {
    Vec3::new(0, 0, 0)
}

#[test]
fn bin_op_ids_and_labels() {
    let ops = [
        BinOp::Union,
        BinOp::Inter,
        BinOp::Diff,
        BinOp::SmoothUnion { amount: 1.0f32.to_bits() },
        BinOp::SmoothInter { amount: 1.0f32.to_bits() },
        BinOp::SmoothDiff { amount: 1.0f32.to_bits() },
    ];
    let ids: Vec<u32> = ops.iter().map(|op| op.id()).collect();
    assert_eq!(ids, vec![0, 1, 2, 3, 4, 5]);
    let labels: Vec<&str> = ops.iter().map(|op| op.pretty_print()).collect();
    assert_eq!(labels, vec!["Union", "Inter", "Diff", "SmoothUnion", "SmoothInter", "SmoothDiff"]);
    assert_eq!(BinOp::VAR_COUNT, 6);
}

#[test]
fn unary_op_ids_and_labels() {
    let ops = [
        UnaryOp::Round { radius: 0 },
        UnaryOp::Extrude { extrusion: zero() },
        UnaryOp::Revolve { axis_base: zero(), axis_dir: zero() },
        UnaryOp::PlanarSymmetry { plane_base: zero(), plane_normal: zero() },
        UnaryOp::AxialSymmetry { axis_base: zero(), axis_dir: zero(), clone_count: 3 },
        UnaryOp::Elongate { elongation: zero() },
        UnaryOp::Onion { thickness: 0 },
        UnaryOp::Twist { direction: zero(), amount: 0 },
        UnaryOp::Bend { curvature_normal: zero() },
        UnaryOp::Transform { offset: zero(), size: zero(), rotation: supernova::csg::types::Quat { x: 0, y: 0, z: 0, w: 0 } },
    ];
    let ids: Vec<u32> = ops.iter().map(|op| op.id()).collect();
    assert_eq!(ids, (0..10).collect::<Vec<u32>>());
    let labels: Vec<&str> = ops.iter().map(|op| op.pretty_print()).collect();
    assert_eq!(
        labels,
        vec!["Round", "Extrude", "Revolve", "PlanarSymmetry", "AxialSymmetry", "Elongate", "Onion", "Twist", "Bend", "Transform"]
    );
    assert_eq!(UnaryOp::VAR_COUNT, 10);
}

fn node(tag: u32) -> (CsgNodeRepr, u32) {
    (Sphere { offset: zero(), radius: tag }.to_repr(0), tag)
}

#[test]
fn packed_trees_split_at_offsets() {
    let trees = vec![node(0), node(1), node(2), node(3), node(4)];
    let packed = PackedCsgTrees::new(trees, [0, 2, 3]).expect("valid offsets");
    let payloads = |s: &[(CsgNodeRepr, u32)]| s.iter().map(|p| p.1).collect::<Vec<u32>>();
    assert_eq!(payloads(packed.ith::<0>()), vec![0, 1]);
    assert_eq!(payloads(packed.ith::<1>()), vec![2]);
    assert_eq!(payloads(packed.ith::<2>()), vec![3, 4]);
}

#[test]
fn packed_trees_refuse_bad_offsets() {
    assert!(PackedCsgTrees::new(vec![node(0), node(1)], [1, 2]).is_none());
    assert!(PackedCsgTrees::new(vec![node(0), node(1)], [0, 3]).is_none());
    assert!(PackedCsgTrees::new(vec![node(0), node(1), node(2)], [0, 2, 1]).is_none());
    assert!(PackedCsgTrees::<u32, 0>::new(vec![], []).is_some());
    let empty_last = PackedCsgTrees::new(vec![node(0)], [0, 1]).expect("valid offsets");
    assert_eq!(empty_last.ith::<1>().len(), 0);
}
