use supernova::csg::opcodes;
use supernova::csg::ops::{
    AxialSymmetry, Bend, Difference, Elongate, Extrude, Intersect, Onion, PlanarSymmetry, Revolve, Round,
    SmoothDifference, SmoothIntersect, SmoothUnion, Transform, Twist, Union,
};
use supernova::csg::primitive::{
    Capsule, Cone, Cube, CubeFrame, Cylinder, Ellipse, Octahedron, Pyramid, RegularHexagon, Sphere, Torus,
    Triangle,
};
use supernova::csg::prefix::CsgTree as PrefixTree;
use supernova::csg::repr::CsgNodeRepr;
use supernova::csg::tree::CsgTree;
use supernova::csg::types::{Quat, Vec3};
use supernova::csg::CsgNode;

fn v(x: f32, y: f32, z: f32) -> Vec3 {
    Vec3 { x: x.to_bits(), y: y.to_bits(), z: z.to_bits() }
}

fn q(x: f32, y: f32, z: f32, w: f32) -> Quat {
    Quat { x: x.to_bits(), y: y.to_bits(), z: z.to_bits(), w: w.to_bits() }
}

fn b(x: f32) -> u32 {
    x.to_bits()
}

fn sphere(radius: f32) -> CsgTree {
    CsgTree::Sphere(Sphere { offset: v(1.0, 2.0, 3.0), radius: b(radius) })
}

fn slots(node: &CsgNodeRepr) -> Vec<f32> {
    node.data.iter().map(|bits| f32::from_bits(*bits)).collect()
}

fn with_unit(nodes: &[CsgNodeRepr]) -> Vec<(CsgNodeRepr, ())> {
    nodes.iter().map(|n| (*n, ())).collect()
}

#[test]
fn sphere_slots() {
    let node = Sphere { offset: v(1.0, 2.0, 3.0), radius: b(0.5) }.to_repr(7);
    assert_eq!(node.opcode, opcodes::SPHERE);
    assert_eq!(node.child_count, 0);
    assert_eq!(node.pad, [0, 0]);
    assert_eq!(slots(&node), vec![1.0, 2.0, 3.0, 0.5, 0.0, 0.0, 0.0, 0.0, 0.0, 0.0, 0.0, 0.0]);
}

#[test]
fn cube_and_cube_frame_slots() {
    let cube = Cube { offset: v(1.0, 2.0, 3.0), size: v(4.0, 5.0, 6.0), rotation: q(0.1, 0.2, 0.3, 0.4) }.to_repr(0);
    assert_eq!(cube.opcode, opcodes::CUBE);
    assert_eq!(slots(&cube), vec![1.0, 2.0, 3.0, 4.0, 5.0, 6.0, 0.1, 0.2, 0.3, 0.4, 0.0, 0.0]);
    let frame = CubeFrame {
        offset: v(1.0, 2.0, 3.0),
        size: v(4.0, 5.0, 6.0),
        rotation: q(0.1, 0.2, 0.3, 0.4),
        thickness: b(9.0),
    }
    .to_repr(3);
    assert_eq!(frame.opcode, opcodes::CUBE_FRAME);
    assert_eq!(frame.child_count, 0);
    assert_eq!(slots(&frame), vec![1.0, 2.0, 3.0, 4.0, 5.0, 6.0, 0.1, 0.2, 0.3, 0.4, 9.0, 0.0]);
}

#[test]
fn other_primitive_slots() {
    let torus = Torus { offset: v(1.0, 2.0, 3.0), normal: v(0.0, 1.0, 0.0), inner_radius: b(0.5), outer_radius: b(2.0) }
        .to_repr(0);
    assert_eq!(torus.opcode, opcodes::TORUS);
    assert_eq!(slots(&torus), vec![1.0, 2.0, 3.0, 0.0, 1.0, 0.0, 0.5, 2.0, 0.0, 0.0, 0.0, 0.0]);
    let cone = Cone { offset: v(1.0, 2.0, 3.0), pointing_towards: v(0.0, 0.0, 1.0), height: b(4.0), base_radius: b(1.5) }
        .to_repr(0);
    assert_eq!(cone.opcode, opcodes::CONE);
    assert_eq!(slots(&cone), vec![1.0, 2.0, 3.0, 0.0, 0.0, 1.0, 4.0, 1.5, 0.0, 0.0, 0.0, 0.0]);
    let triangle = Triangle { a: v(1.0, 2.0, 3.0), b: v(4.0, 5.0, 6.0), c: v(7.0, 8.0, 9.0) }.to_repr(0);
    assert_eq!(triangle.opcode, opcodes::TRIANGLE);
    assert_eq!(slots(&triangle), vec![1.0, 2.0, 3.0, 4.0, 5.0, 6.0, 7.0, 8.0, 9.0, 0.0, 0.0, 0.0]);
    let hexagon = RegularHexagon { offset: v(1.0, 2.0, 3.0), normal: v(0.0, 1.0, 0.0), radius: b(2.5) }.to_repr(0);
    assert_eq!(hexagon.opcode, opcodes::REGULAR_HEXAGON);
    assert_eq!(slots(&hexagon), vec![1.0, 2.0, 3.0, 0.0, 1.0, 0.0, 2.5, 0.0, 0.0, 0.0, 0.0, 0.0]);
    let capsule = Capsule { a: v(1.0, 2.0, 3.0), b: v(4.0, 5.0, 6.0), radius: b(0.5) }.to_repr(0);
    assert_eq!(capsule.opcode, opcodes::CAPSULE);
    assert_eq!(slots(&capsule), vec![1.0, 2.0, 3.0, 4.0, 5.0, 6.0, 0.5, 0.0, 0.0, 0.0, 0.0, 0.0]);
    let cylinder = Cylinder { a: v(1.0, 2.0, 3.0), b: v(4.0, 5.0, 6.0), radius: b(0.5) }.to_repr(0);
    assert_eq!(cylinder.opcode, opcodes::CYLINDER);
    assert_eq!(slots(&cylinder), slots(&capsule));
    let ellipse = Ellipse { a: v(1.0, 2.0, 3.0), b: v(4.0, 5.0, 6.0), radius: b(0.5) }.to_repr(0);
    assert_eq!(ellipse.opcode, opcodes::ELLIPSE);
    assert_eq!(slots(&ellipse), slots(&capsule));
    let octahedron = Octahedron { offset: v(1.0, 2.0, 3.0), size: b(2.0), rotation: q(0.1, 0.2, 0.3, 0.4) }.to_repr(0);
    assert_eq!(octahedron.opcode, opcodes::OCTAHEDRON);
    assert_eq!(slots(&octahedron), vec![1.0, 2.0, 3.0, 2.0, 0.1, 0.2, 0.3, 0.4, 0.0, 0.0, 0.0, 0.0]);
    let pyramid = Pyramid { offset: v(1.0, 2.0, 3.0), size: b(2.0), rotation: q(0.1, 0.2, 0.3, 0.4) }.to_repr(0);
    assert_eq!(pyramid.opcode, opcodes::PYRAMID);
    assert_eq!(slots(&pyramid), slots(&octahedron));
}

#[test]
fn unary_op_slots_keep_child_count() {
    let round = Round { radius: b(0.25) }.to_repr(1);
    assert_eq!((round.opcode, round.child_count), (opcodes::ROUND, 1));
    assert_eq!(slots(&round)[0], 0.25);
    let extrude = Extrude { extrusion: v(1.0, 2.0, 3.0) }.to_repr(1);
    assert_eq!(extrude.opcode, opcodes::EXTRUDE);
    assert_eq!(slots(&extrude)[..4], [1.0, 2.0, 3.0, 0.0]);
    let revolve = Revolve { axis_base: v(1.0, 2.0, 3.0), axis_dir: v(4.0, 5.0, 6.0) }.to_repr(1);
    assert_eq!(revolve.opcode, opcodes::REVOLVE);
    assert_eq!(slots(&revolve)[..8], [1.0, 2.0, 3.0, 0.0, 4.0, 5.0, 6.0, 0.0]);
    let planar = PlanarSymmetry { plane_base: v(1.0, 2.0, 3.0), plane_normal: v(4.0, 5.0, 6.0) }.to_repr(1);
    assert_eq!(planar.opcode, opcodes::PLANAR_SYMMETRY);
    assert_eq!(slots(&planar), slots(&revolve));
    let axial = AxialSymmetry { axis_base: v(1.0, 2.0, 3.0), axis_dir: v(4.0, 5.0, 6.0), clone_count: 6 }.to_repr(1);
    assert_eq!(axial.opcode, opcodes::AXIAL_SYMMETRY);
    assert_eq!(axial.data[8], 6);
    assert_eq!(slots(&axial)[..8], [1.0, 2.0, 3.0, 0.0, 4.0, 5.0, 6.0, 0.0]);
    let elongate = Elongate { elongation: v(1.0, 0.0, 2.0) }.to_repr(1);
    assert_eq!(elongate.opcode, opcodes::ELONGATE);
    assert_eq!(slots(&elongate)[..3], [1.0, 0.0, 2.0]);
    let onion = Onion { thickness: b(0.1) }.to_repr(1);
    assert_eq!((onion.opcode, slots(&onion)[0]), (opcodes::ONION, 0.1));
    let twist = Twist { direction: v(0.0, 1.0, 0.0), amount: b(3.0) }.to_repr(1);
    assert_eq!(twist.opcode, opcodes::TWIST);
    assert_eq!(slots(&twist)[..4], [0.0, 1.0, 0.0, 3.0]);
    let bend = Bend { curvature_normal: v(0.0, 0.0, 1.0) }.to_repr(1);
    assert_eq!(bend.opcode, opcodes::BEND);
    assert_eq!(slots(&bend)[..3], [0.0, 0.0, 1.0]);
    let transform = Transform { offset: v(1.0, 2.0, 3.0), size: v(4.0, 5.0, 6.0), rotation: q(0.1, 0.2, 0.3, 0.4) }.to_repr(1);
    assert_eq!(transform.opcode, opcodes::TRANSFORM);
    assert_eq!(slots(&transform), vec![1.0, 2.0, 3.0, 4.0, 5.0, 6.0, 0.1, 0.2, 0.3, 0.4, 0.0, 0.0]);
}

#[test]
fn combinator_slots() {
    assert_eq!(Union.to_repr(5).child_count, 5);
    assert_eq!(Union.to_repr(5).opcode, opcodes::UNION);
    assert_eq!(Intersect.to_repr(3).opcode, opcodes::INTERSECT);
    assert_eq!(Difference.to_repr(2).opcode, opcodes::DIFFERENCE);
    assert_eq!(Difference.to_repr(2).data, [0; 12]);
    let smooth = SmoothUnion { amount: b(0.5) }.to_repr(4);
    assert_eq!((smooth.opcode, smooth.child_count, slots(&smooth)[0]), (opcodes::SMOOTH_UNION, 4, 0.5));
    let smooth = SmoothIntersect { amount: b(0.5) }.to_repr(2);
    assert_eq!((smooth.opcode, smooth.child_count), (opcodes::SMOOTH_INTERSECT, 2));
    let smooth = SmoothDifference { amount: b(0.75) }.to_repr(2);
    assert_eq!((smooth.opcode, slots(&smooth)[0]), (opcodes::SMOOTH_DIFFERENCE, 0.75));
}

#[test]
fn flatten_single_sphere() {
    let nodes = sphere(0.5).flatten();
    assert_eq!(nodes.len(), 1);
    assert_eq!(nodes[0].opcode, opcodes::SPHERE);
    assert_eq!(nodes[0].child_count, 0);
    assert_eq!(nodes[0].data[3], b(0.5));
}

#[test]
fn flatten_empty_tree() {
    let nodes = CsgTree::Empty.flatten();
    assert_eq!(nodes.len(), 1);
    assert_eq!(nodes[0].opcode, opcodes::EMPTY);
    assert_eq!(nodes[0].child_count, 0);
    assert_eq!(nodes[0].data, [0; 12]);
}

#[test]
fn flatten_union_in_prefix_order() {
    let tree = CsgTree::Union {
        children: vec![
            sphere(1.0),
            CsgTree::Round { node: Round { radius: b(0.25) }, child: Box::new(sphere(2.0)) },
            CsgTree::Empty,
        ],
    };
    let nodes = tree.flatten();
    let codes: Vec<u32> = nodes.iter().map(|n| n.opcode).collect();
    assert_eq!(codes, vec![opcodes::UNION, opcodes::SPHERE, opcodes::ROUND, opcodes::SPHERE, opcodes::EMPTY]);
    let counts: Vec<u32> = nodes.iter().map(|n| n.child_count).collect();
    assert_eq!(counts, vec![3, 0, 1, 0, 0]);
    assert_eq!(nodes[1].data[3], b(1.0));
    assert_eq!(nodes[3].data[3], b(2.0));
}

#[test]
fn flatten_difference_base_first() {
    let tree = CsgTree::SmoothDifference {
        node: SmoothDifference { amount: b(0.1) },
        base: Box::new(sphere(3.0)),
        subtract: Box::new(CsgTree::Intersect { children: vec![sphere(1.0), sphere(2.0)] }),
    };
    let nodes = tree.flatten();
    let codes: Vec<u32> = nodes.iter().map(|n| n.opcode).collect();
    assert_eq!(
        codes,
        vec![opcodes::SMOOTH_DIFFERENCE, opcodes::SPHERE, opcodes::INTERSECT, opcodes::SPHERE, opcodes::SPHERE]
    );
    assert_eq!(nodes[0].child_count, 2);
    assert_eq!(nodes[1].data[3], b(3.0));
    assert_eq!(nodes[2].child_count, 2);
}

#[test]
fn flatten_into_appends() {
    let mut out = sphere(1.0).flatten();
    CsgTree::Difference { base: Box::new(sphere(2.0)), subtract: Box::new(sphere(3.0)) }.flatten_into(&mut out);
    let codes: Vec<u32> = out.iter().map(|n| n.opcode).collect();
    assert_eq!(codes, vec![opcodes::SPHERE, opcodes::DIFFERENCE, opcodes::SPHERE, opcodes::SPHERE]);
}

#[test]
fn flattened_trees_validate() {
    let tree = CsgTree::SmoothUnion {
        node: SmoothUnion { amount: b(0.2) },
        children: vec![
            CsgTree::Twist { node: Twist { direction: v(0.0, 1.0, 0.0), amount: b(1.0) }, child: Box::new(sphere(1.0)) },
            CsgTree::Union { children: vec![] },
            CsgTree::Difference { base: Box::new(sphere(2.0)), subtract: Box::new(CsgTree::Empty) },
        ],
    };
    let nodes = with_unit(&tree.flatten());
    let slice: &[(CsgNodeRepr, ())] = &nodes;
    assert_eq!(slice.node_count(), nodes.len());
    assert!(slice.validate());
}

#[test]
fn node_count_stops_at_end_and_ignores_trailing_nodes() {
    let lonely_union = with_unit(&[Union.to_repr(2)]);
    let slice: &[(CsgNodeRepr, ())] = &lonely_union;
    assert_eq!(slice.node_count(), 1);
    assert!(slice.validate());

    let mut two_trees = with_unit(&sphere(1.0).flatten());
    two_trees.extend(with_unit(&sphere(2.0).flatten()));
    let slice: &[(CsgNodeRepr, ())] = &two_trees;
    assert_eq!(slice.node_count(), 1);
    assert!(!slice.validate());

    let missing_child = with_unit(&[Union.to_repr(3), sphere(1.0).flatten()[0]]);
    let slice: &[(CsgNodeRepr, ())] = &missing_child;
    assert_eq!(slice.node_count(), 2);
    assert!(slice.validate());

    let empty: Vec<(CsgNodeRepr, ())> = Vec::new();
    let slice: &[(CsgNodeRepr, ())] = &empty;
    assert_eq!(slice.node_count(), 0);
    assert!(slice.validate());
}
