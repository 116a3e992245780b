//! Laws of the GPU node layout: what each node kind writes where.
use vstd::prelude::*;

use crate::csg::opcodes;
use crate::csg::ops;
use crate::csg::primitive;
use crate::csg::CsgNode;

verus! {

/// Law: a sphere node is written with opcode `SPHERE`, no children, its offset in slots 0..3 and its radius in slot 3; every other slot and the padding hold zero.
pub proof fn lemma_sphere_layout(node: primitive::Sphere, child_count: u32)
    ensures
        node.spec_to_repr(child_count).opcode == opcodes::SPHERE,
        node.spec_to_repr(child_count).child_count == 0,
        node.spec_to_repr(child_count).pad@ == seq![0u32, 0u32],
        node.spec_to_repr(child_count).data@ == seq![node.offset.x, node.offset.y, node.offset.z, node.radius, 0u32, 0u32, 0u32, 0u32, 0u32, 0u32, 0u32, 0u32],
{
    broadcast use vstd::array::group_array_axioms;

    assert(node.spec_to_repr(child_count).pad@ =~= seq![0u32, 0u32]);
    assert(node.spec_to_repr(child_count).data@ =~= seq![node.offset.x, node.offset.y, node.offset.z, node.radius, 0u32, 0u32, 0u32, 0u32, 0u32, 0u32, 0u32, 0u32]);
}

/// Law: a cube node is written with opcode `CUBE`, no children, its offset in slots 0..3, its size in slots 3..6 and its rotation in slots 6..10; every other slot and the padding hold zero.
pub proof fn lemma_cube_layout(node: primitive::Cube, child_count: u32)
    ensures
        node.spec_to_repr(child_count).opcode == opcodes::CUBE,
        node.spec_to_repr(child_count).child_count == 0,
        node.spec_to_repr(child_count).pad@ == seq![0u32, 0u32],
        node.spec_to_repr(child_count).data@ == seq![node.offset.x, node.offset.y, node.offset.z, node.size.x, node.size.y, node.size.z, node.rotation.x, node.rotation.y, node.rotation.z, node.rotation.w, 0u32, 0u32],
{
    broadcast use vstd::array::group_array_axioms;

    assert(node.spec_to_repr(child_count).pad@ =~= seq![0u32, 0u32]);
    assert(node.spec_to_repr(child_count).data@ =~= seq![node.offset.x, node.offset.y, node.offset.z, node.size.x, node.size.y, node.size.z, node.rotation.x, node.rotation.y, node.rotation.z, node.rotation.w, 0u32, 0u32]);
}

/// Law: a torus node is written with opcode `TORUS`, no children, its offset in slots 0..3, its normal in slots 3..6, its inner radius in slot 6 and its outer radius in slot 7; every other slot and the padding hold zero.
pub proof fn lemma_torus_layout(node: primitive::Torus, child_count: u32)
    ensures
        node.spec_to_repr(child_count).opcode == opcodes::TORUS,
        node.spec_to_repr(child_count).child_count == 0,
        node.spec_to_repr(child_count).pad@ == seq![0u32, 0u32],
        node.spec_to_repr(child_count).data@ == seq![node.offset.x, node.offset.y, node.offset.z, node.normal.x, node.normal.y, node.normal.z, node.inner_radius, node.outer_radius, 0u32, 0u32, 0u32, 0u32],
{
    broadcast use vstd::array::group_array_axioms;

    assert(node.spec_to_repr(child_count).pad@ =~= seq![0u32, 0u32]);
    assert(node.spec_to_repr(child_count).data@ =~= seq![node.offset.x, node.offset.y, node.offset.z, node.normal.x, node.normal.y, node.normal.z, node.inner_radius, node.outer_radius, 0u32, 0u32, 0u32, 0u32]);
}

/// Law: a cube frame node is written with opcode `CUBE_FRAME`, no children, its offset in slots 0..3, its size in slots 3..6, its rotation in slots 6..10 and its thickness in slot 10; every other slot and the padding hold zero.
pub proof fn lemma_cube_frame_layout(node: primitive::CubeFrame, child_count: u32)
    ensures
        node.spec_to_repr(child_count).opcode == opcodes::CUBE_FRAME,
        node.spec_to_repr(child_count).child_count == 0,
        node.spec_to_repr(child_count).pad@ == seq![0u32, 0u32],
        node.spec_to_repr(child_count).data@ == seq![node.offset.x, node.offset.y, node.offset.z, node.size.x, node.size.y, node.size.z, node.rotation.x, node.rotation.y, node.rotation.z, node.rotation.w, node.thickness, 0u32],
{
    broadcast use vstd::array::group_array_axioms;

    assert(node.spec_to_repr(child_count).pad@ =~= seq![0u32, 0u32]);
    assert(node.spec_to_repr(child_count).data@ =~= seq![node.offset.x, node.offset.y, node.offset.z, node.size.x, node.size.y, node.size.z, node.rotation.x, node.rotation.y, node.rotation.z, node.rotation.w, node.thickness, 0u32]);
}

/// Law: a cone node is written with opcode `CONE`, no children, its offset in slots 0..3, its pointing towards in slots 3..6, its height in slot 6 and its base radius in slot 7; every other slot and the padding hold zero.
pub proof fn lemma_cone_layout(node: primitive::Cone, child_count: u32)
    ensures
        node.spec_to_repr(child_count).opcode == opcodes::CONE,
        node.spec_to_repr(child_count).child_count == 0,
        node.spec_to_repr(child_count).pad@ == seq![0u32, 0u32],
        node.spec_to_repr(child_count).data@ == seq![node.offset.x, node.offset.y, node.offset.z, node.pointing_towards.x, node.pointing_towards.y, node.pointing_towards.z, node.height, node.base_radius, 0u32, 0u32, 0u32, 0u32],
{
    broadcast use vstd::array::group_array_axioms;

    assert(node.spec_to_repr(child_count).pad@ =~= seq![0u32, 0u32]);
    assert(node.spec_to_repr(child_count).data@ =~= seq![node.offset.x, node.offset.y, node.offset.z, node.pointing_towards.x, node.pointing_towards.y, node.pointing_towards.z, node.height, node.base_radius, 0u32, 0u32, 0u32, 0u32]);
}

/// Law: a triangle node is written with opcode `TRIANGLE`, no children, its a in slots 0..3, its b in slots 3..6 and its c in slots 6..9; every other slot and the padding hold zero.
pub proof fn lemma_triangle_layout(node: primitive::Triangle, child_count: u32)
    ensures
        node.spec_to_repr(child_count).opcode == opcodes::TRIANGLE,
        node.spec_to_repr(child_count).child_count == 0,
        node.spec_to_repr(child_count).pad@ == seq![0u32, 0u32],
        node.spec_to_repr(child_count).data@ == seq![node.a.x, node.a.y, node.a.z, node.b.x, node.b.y, node.b.z, node.c.x, node.c.y, node.c.z, 0u32, 0u32, 0u32],
{
    broadcast use vstd::array::group_array_axioms;

    assert(node.spec_to_repr(child_count).pad@ =~= seq![0u32, 0u32]);
    assert(node.spec_to_repr(child_count).data@ =~= seq![node.a.x, node.a.y, node.a.z, node.b.x, node.b.y, node.b.z, node.c.x, node.c.y, node.c.z, 0u32, 0u32, 0u32]);
}

/// Law: a regular hexagon node is written with opcode `REGULAR_HEXAGON`, no children, its offset in slots 0..3, its normal in slots 3..6 and its radius in slot 6; every other slot and the padding hold zero.
pub proof fn lemma_regular_hexagon_layout(node: primitive::RegularHexagon, child_count: u32)
    ensures
        node.spec_to_repr(child_count).opcode == opcodes::REGULAR_HEXAGON,
        node.spec_to_repr(child_count).child_count == 0,
        node.spec_to_repr(child_count).pad@ == seq![0u32, 0u32],
        node.spec_to_repr(child_count).data@ == seq![node.offset.x, node.offset.y, node.offset.z, node.normal.x, node.normal.y, node.normal.z, node.radius, 0u32, 0u32, 0u32, 0u32, 0u32],
{
    broadcast use vstd::array::group_array_axioms;

    assert(node.spec_to_repr(child_count).pad@ =~= seq![0u32, 0u32]);
    assert(node.spec_to_repr(child_count).data@ =~= seq![node.offset.x, node.offset.y, node.offset.z, node.normal.x, node.normal.y, node.normal.z, node.radius, 0u32, 0u32, 0u32, 0u32, 0u32]);
}

/// Law: a capsule node is written with opcode `CAPSULE`, no children, its a in slots 0..3, its b in slots 3..6 and its radius in slot 6; every other slot and the padding hold zero.
pub proof fn lemma_capsule_layout(node: primitive::Capsule, child_count: u32)
    ensures
        node.spec_to_repr(child_count).opcode == opcodes::CAPSULE,
        node.spec_to_repr(child_count).child_count == 0,
        node.spec_to_repr(child_count).pad@ == seq![0u32, 0u32],
        node.spec_to_repr(child_count).data@ == seq![node.a.x, node.a.y, node.a.z, node.b.x, node.b.y, node.b.z, node.radius, 0u32, 0u32, 0u32, 0u32, 0u32],
{
    broadcast use vstd::array::group_array_axioms;

    assert(node.spec_to_repr(child_count).pad@ =~= seq![0u32, 0u32]);
    assert(node.spec_to_repr(child_count).data@ =~= seq![node.a.x, node.a.y, node.a.z, node.b.x, node.b.y, node.b.z, node.radius, 0u32, 0u32, 0u32, 0u32, 0u32]);
}

/// Law: a cylinder node is written with opcode `CYLINDER`, no children, its a in slots 0..3, its b in slots 3..6 and its radius in slot 6; every other slot and the padding hold zero.
pub proof fn lemma_cylinder_layout(node: primitive::Cylinder, child_count: u32)
    ensures
        node.spec_to_repr(child_count).opcode == opcodes::CYLINDER,
        node.spec_to_repr(child_count).child_count == 0,
        node.spec_to_repr(child_count).pad@ == seq![0u32, 0u32],
        node.spec_to_repr(child_count).data@ == seq![node.a.x, node.a.y, node.a.z, node.b.x, node.b.y, node.b.z, node.radius, 0u32, 0u32, 0u32, 0u32, 0u32],
{
    broadcast use vstd::array::group_array_axioms;

    assert(node.spec_to_repr(child_count).pad@ =~= seq![0u32, 0u32]);
    assert(node.spec_to_repr(child_count).data@ =~= seq![node.a.x, node.a.y, node.a.z, node.b.x, node.b.y, node.b.z, node.radius, 0u32, 0u32, 0u32, 0u32, 0u32]);
}

/// Law: a ellipse node is written with opcode `ELLIPSE`, no children, its a in slots 0..3, its b in slots 3..6 and its radius in slot 6; every other slot and the padding hold zero.
pub proof fn lemma_ellipse_layout(node: primitive::Ellipse, child_count: u32)
    ensures
        node.spec_to_repr(child_count).opcode == opcodes::ELLIPSE,
        node.spec_to_repr(child_count).child_count == 0,
        node.spec_to_repr(child_count).pad@ == seq![0u32, 0u32],
        node.spec_to_repr(child_count).data@ == seq![node.a.x, node.a.y, node.a.z, node.b.x, node.b.y, node.b.z, node.radius, 0u32, 0u32, 0u32, 0u32, 0u32],
{
    broadcast use vstd::array::group_array_axioms;

    assert(node.spec_to_repr(child_count).pad@ =~= seq![0u32, 0u32]);
    assert(node.spec_to_repr(child_count).data@ =~= seq![node.a.x, node.a.y, node.a.z, node.b.x, node.b.y, node.b.z, node.radius, 0u32, 0u32, 0u32, 0u32, 0u32]);
}

/// Law: a octahedron node is written with opcode `OCTAHEDRON`, no children, its offset in slots 0..3, its size in slot 3 and its rotation in slots 4..8; every other slot and the padding hold zero.
pub proof fn lemma_octahedron_layout(node: primitive::Octahedron, child_count: u32)
    ensures
        node.spec_to_repr(child_count).opcode == opcodes::OCTAHEDRON,
        node.spec_to_repr(child_count).child_count == 0,
        node.spec_to_repr(child_count).pad@ == seq![0u32, 0u32],
        node.spec_to_repr(child_count).data@ == seq![node.offset.x, node.offset.y, node.offset.z, node.size, node.rotation.x, node.rotation.y, node.rotation.z, node.rotation.w, 0u32, 0u32, 0u32, 0u32],
{
    broadcast use vstd::array::group_array_axioms;

    assert(node.spec_to_repr(child_count).pad@ =~= seq![0u32, 0u32]);
    assert(node.spec_to_repr(child_count).data@ =~= seq![node.offset.x, node.offset.y, node.offset.z, node.size, node.rotation.x, node.rotation.y, node.rotation.z, node.rotation.w, 0u32, 0u32, 0u32, 0u32]);
}

/// Law: a pyramid node is written with opcode `PYRAMID`, no children, its offset in slots 0..3, its size in slot 3 and its rotation in slots 4..8; every other slot and the padding hold zero.
pub proof fn lemma_pyramid_layout(node: primitive::Pyramid, child_count: u32)
    ensures
        node.spec_to_repr(child_count).opcode == opcodes::PYRAMID,
        node.spec_to_repr(child_count).child_count == 0,
        node.spec_to_repr(child_count).pad@ == seq![0u32, 0u32],
        node.spec_to_repr(child_count).data@ == seq![node.offset.x, node.offset.y, node.offset.z, node.size, node.rotation.x, node.rotation.y, node.rotation.z, node.rotation.w, 0u32, 0u32, 0u32, 0u32],
{
    broadcast use vstd::array::group_array_axioms;

    assert(node.spec_to_repr(child_count).pad@ =~= seq![0u32, 0u32]);
    assert(node.spec_to_repr(child_count).data@ =~= seq![node.offset.x, node.offset.y, node.offset.z, node.size, node.rotation.x, node.rotation.y, node.rotation.z, node.rotation.w, 0u32, 0u32, 0u32, 0u32]);
}

/// Law: a round node is written with opcode `ROUND`, the child count it is given, its radius in slot 0; every other slot and the padding hold zero.
pub proof fn lemma_round_layout(node: ops::Round, child_count: u32)
    ensures
        node.spec_to_repr(child_count).opcode == opcodes::ROUND,
        node.spec_to_repr(child_count).child_count == child_count,
        node.spec_to_repr(child_count).pad@ == seq![0u32, 0u32],
        node.spec_to_repr(child_count).data@ == seq![node.radius, 0u32, 0u32, 0u32, 0u32, 0u32, 0u32, 0u32, 0u32, 0u32, 0u32, 0u32],
{
    broadcast use vstd::array::group_array_axioms;

    assert(node.spec_to_repr(child_count).pad@ =~= seq![0u32, 0u32]);
    assert(node.spec_to_repr(child_count).data@ =~= seq![node.radius, 0u32, 0u32, 0u32, 0u32, 0u32, 0u32, 0u32, 0u32, 0u32, 0u32, 0u32]);
}

/// Law: a extrude node is written with opcode `EXTRUDE`, the child count it is given, its extrusion in slots 0..3; every other slot and the padding hold zero.
pub proof fn lemma_extrude_layout(node: ops::Extrude, child_count: u32)
    ensures
        node.spec_to_repr(child_count).opcode == opcodes::EXTRUDE,
        node.spec_to_repr(child_count).child_count == child_count,
        node.spec_to_repr(child_count).pad@ == seq![0u32, 0u32],
        node.spec_to_repr(child_count).data@ == seq![node.extrusion.x, node.extrusion.y, node.extrusion.z, 0u32, 0u32, 0u32, 0u32, 0u32, 0u32, 0u32, 0u32, 0u32],
{
    broadcast use vstd::array::group_array_axioms;

    assert(node.spec_to_repr(child_count).pad@ =~= seq![0u32, 0u32]);
    assert(node.spec_to_repr(child_count).data@ =~= seq![node.extrusion.x, node.extrusion.y, node.extrusion.z, 0u32, 0u32, 0u32, 0u32, 0u32, 0u32, 0u32, 0u32, 0u32]);
}

/// Law: a revolve node is written with opcode `REVOLVE`, the child count it is given, its axis base in slots 0..3 and its axis dir in slots 4..7; every other slot and the padding hold zero.
pub proof fn lemma_revolve_layout(node: ops::Revolve, child_count: u32)
    ensures
        node.spec_to_repr(child_count).opcode == opcodes::REVOLVE,
        node.spec_to_repr(child_count).child_count == child_count,
        node.spec_to_repr(child_count).pad@ == seq![0u32, 0u32],
        node.spec_to_repr(child_count).data@ == seq![node.axis_base.x, node.axis_base.y, node.axis_base.z, 0u32, node.axis_dir.x, node.axis_dir.y, node.axis_dir.z, 0u32, 0u32, 0u32, 0u32, 0u32],
{
    broadcast use vstd::array::group_array_axioms;

    assert(node.spec_to_repr(child_count).pad@ =~= seq![0u32, 0u32]);
    assert(node.spec_to_repr(child_count).data@ =~= seq![node.axis_base.x, node.axis_base.y, node.axis_base.z, 0u32, node.axis_dir.x, node.axis_dir.y, node.axis_dir.z, 0u32, 0u32, 0u32, 0u32, 0u32]);
}

/// Law: a planar symmetry node is written with opcode `PLANAR_SYMMETRY`, the child count it is given, its plane base in slots 0..3 and its plane normal in slots 4..7; every other slot and the padding hold zero.
pub proof fn lemma_planar_symmetry_layout(node: ops::PlanarSymmetry, child_count: u32)
    ensures
        node.spec_to_repr(child_count).opcode == opcodes::PLANAR_SYMMETRY,
        node.spec_to_repr(child_count).child_count == child_count,
        node.spec_to_repr(child_count).pad@ == seq![0u32, 0u32],
        node.spec_to_repr(child_count).data@ == seq![node.plane_base.x, node.plane_base.y, node.plane_base.z, 0u32, node.plane_normal.x, node.plane_normal.y, node.plane_normal.z, 0u32, 0u32, 0u32, 0u32, 0u32],
{
    broadcast use vstd::array::group_array_axioms;

    assert(node.spec_to_repr(child_count).pad@ =~= seq![0u32, 0u32]);
    assert(node.spec_to_repr(child_count).data@ =~= seq![node.plane_base.x, node.plane_base.y, node.plane_base.z, 0u32, node.plane_normal.x, node.plane_normal.y, node.plane_normal.z, 0u32, 0u32, 0u32, 0u32, 0u32]);
}

/// Law: a axial symmetry node is written with opcode `AXIAL_SYMMETRY`, the child count it is given, its axis base in slots 0..3, its axis dir in slots 4..7 and its clone count in slot 8; every other slot and the padding hold zero.
pub proof fn lemma_axial_symmetry_layout(node: ops::AxialSymmetry, child_count: u32)
    ensures
        node.spec_to_repr(child_count).opcode == opcodes::AXIAL_SYMMETRY,
        node.spec_to_repr(child_count).child_count == child_count,
        node.spec_to_repr(child_count).pad@ == seq![0u32, 0u32],
        node.spec_to_repr(child_count).data@ == seq![node.axis_base.x, node.axis_base.y, node.axis_base.z, 0u32, node.axis_dir.x, node.axis_dir.y, node.axis_dir.z, 0u32, node.clone_count, 0u32, 0u32, 0u32],
{
    broadcast use vstd::array::group_array_axioms;

    assert(node.spec_to_repr(child_count).pad@ =~= seq![0u32, 0u32]);
    assert(node.spec_to_repr(child_count).data@ =~= seq![node.axis_base.x, node.axis_base.y, node.axis_base.z, 0u32, node.axis_dir.x, node.axis_dir.y, node.axis_dir.z, 0u32, node.clone_count, 0u32, 0u32, 0u32]);
}

/// Law: a elongate node is written with opcode `ELONGATE`, the child count it is given, its elongation in slots 0..3; every other slot and the padding hold zero.
pub proof fn lemma_elongate_layout(node: ops::Elongate, child_count: u32)
    ensures
        node.spec_to_repr(child_count).opcode == opcodes::ELONGATE,
        node.spec_to_repr(child_count).child_count == child_count,
        node.spec_to_repr(child_count).pad@ == seq![0u32, 0u32],
        node.spec_to_repr(child_count).data@ == seq![node.elongation.x, node.elongation.y, node.elongation.z, 0u32, 0u32, 0u32, 0u32, 0u32, 0u32, 0u32, 0u32, 0u32],
{
    broadcast use vstd::array::group_array_axioms;

    assert(node.spec_to_repr(child_count).pad@ =~= seq![0u32, 0u32]);
    assert(node.spec_to_repr(child_count).data@ =~= seq![node.elongation.x, node.elongation.y, node.elongation.z, 0u32, 0u32, 0u32, 0u32, 0u32, 0u32, 0u32, 0u32, 0u32]);
}

/// Law: a onion node is written with opcode `ONION`, the child count it is given, its thickness in slot 0; every other slot and the padding hold zero.
pub proof fn lemma_onion_layout(node: ops::Onion, child_count: u32)
    ensures
        node.spec_to_repr(child_count).opcode == opcodes::ONION,
        node.spec_to_repr(child_count).child_count == child_count,
        node.spec_to_repr(child_count).pad@ == seq![0u32, 0u32],
        node.spec_to_repr(child_count).data@ == seq![node.thickness, 0u32, 0u32, 0u32, 0u32, 0u32, 0u32, 0u32, 0u32, 0u32, 0u32, 0u32],
{
    broadcast use vstd::array::group_array_axioms;

    assert(node.spec_to_repr(child_count).pad@ =~= seq![0u32, 0u32]);
    assert(node.spec_to_repr(child_count).data@ =~= seq![node.thickness, 0u32, 0u32, 0u32, 0u32, 0u32, 0u32, 0u32, 0u32, 0u32, 0u32, 0u32]);
}

/// Law: a twist node is written with opcode `TWIST`, the child count it is given, its direction in slots 0..3 and its amount in slot 3; every other slot and the padding hold zero.
pub proof fn lemma_twist_layout(node: ops::Twist, child_count: u32)
    ensures
        node.spec_to_repr(child_count).opcode == opcodes::TWIST,
        node.spec_to_repr(child_count).child_count == child_count,
        node.spec_to_repr(child_count).pad@ == seq![0u32, 0u32],
        node.spec_to_repr(child_count).data@ == seq![node.direction.x, node.direction.y, node.direction.z, node.amount, 0u32, 0u32, 0u32, 0u32, 0u32, 0u32, 0u32, 0u32],
{
    broadcast use vstd::array::group_array_axioms;

    assert(node.spec_to_repr(child_count).pad@ =~= seq![0u32, 0u32]);
    assert(node.spec_to_repr(child_count).data@ =~= seq![node.direction.x, node.direction.y, node.direction.z, node.amount, 0u32, 0u32, 0u32, 0u32, 0u32, 0u32, 0u32, 0u32]);
}

/// Law: a bend node is written with opcode `BEND`, the child count it is given, its curvature normal in slots 0..3; every other slot and the padding hold zero.
pub proof fn lemma_bend_layout(node: ops::Bend, child_count: u32)
    ensures
        node.spec_to_repr(child_count).opcode == opcodes::BEND,
        node.spec_to_repr(child_count).child_count == child_count,
        node.spec_to_repr(child_count).pad@ == seq![0u32, 0u32],
        node.spec_to_repr(child_count).data@ == seq![node.curvature_normal.x, node.curvature_normal.y, node.curvature_normal.z, 0u32, 0u32, 0u32, 0u32, 0u32, 0u32, 0u32, 0u32, 0u32],
{
    broadcast use vstd::array::group_array_axioms;

    assert(node.spec_to_repr(child_count).pad@ =~= seq![0u32, 0u32]);
    assert(node.spec_to_repr(child_count).data@ =~= seq![node.curvature_normal.x, node.curvature_normal.y, node.curvature_normal.z, 0u32, 0u32, 0u32, 0u32, 0u32, 0u32, 0u32, 0u32, 0u32]);
}

/// Law: a transform node is written with opcode `TRANSFORM`, the child count it is given, its offset in slots 0..3, its size in slots 3..6 and its rotation in slots 6..10; every other slot and the padding hold zero.
pub proof fn lemma_transform_layout(node: ops::Transform, child_count: u32)
    ensures
        node.spec_to_repr(child_count).opcode == opcodes::TRANSFORM,
        node.spec_to_repr(child_count).child_count == child_count,
        node.spec_to_repr(child_count).pad@ == seq![0u32, 0u32],
        node.spec_to_repr(child_count).data@ == seq![node.offset.x, node.offset.y, node.offset.z, node.size.x, node.size.y, node.size.z, node.rotation.x, node.rotation.y, node.rotation.z, node.rotation.w, 0u32, 0u32],
{
    broadcast use vstd::array::group_array_axioms;

    assert(node.spec_to_repr(child_count).pad@ =~= seq![0u32, 0u32]);
    assert(node.spec_to_repr(child_count).data@ =~= seq![node.offset.x, node.offset.y, node.offset.z, node.size.x, node.size.y, node.size.z, node.rotation.x, node.rotation.y, node.rotation.z, node.rotation.w, 0u32, 0u32]);
}

/// Law: a union node is written with opcode `UNION`, the child count it is given, no parameters; every other slot and the padding hold zero.
pub proof fn lemma_union_layout(node: ops::Union, child_count: u32)
    ensures
        node.spec_to_repr(child_count).opcode == opcodes::UNION,
        node.spec_to_repr(child_count).child_count == child_count,
        node.spec_to_repr(child_count).pad@ == seq![0u32, 0u32],
        node.spec_to_repr(child_count).data@ == seq![0u32, 0u32, 0u32, 0u32, 0u32, 0u32, 0u32, 0u32, 0u32, 0u32, 0u32, 0u32],
{
    broadcast use vstd::array::group_array_axioms;

    assert(node.spec_to_repr(child_count).pad@ =~= seq![0u32, 0u32]);
    assert(node.spec_to_repr(child_count).data@ =~= seq![0u32, 0u32, 0u32, 0u32, 0u32, 0u32, 0u32, 0u32, 0u32, 0u32, 0u32, 0u32]);
}

/// Law: a intersect node is written with opcode `INTERSECT`, the child count it is given, no parameters; every other slot and the padding hold zero.
pub proof fn lemma_intersect_layout(node: ops::Intersect, child_count: u32)
    ensures
        node.spec_to_repr(child_count).opcode == opcodes::INTERSECT,
        node.spec_to_repr(child_count).child_count == child_count,
        node.spec_to_repr(child_count).pad@ == seq![0u32, 0u32],
        node.spec_to_repr(child_count).data@ == seq![0u32, 0u32, 0u32, 0u32, 0u32, 0u32, 0u32, 0u32, 0u32, 0u32, 0u32, 0u32],
{
    broadcast use vstd::array::group_array_axioms;

    assert(node.spec_to_repr(child_count).pad@ =~= seq![0u32, 0u32]);
    assert(node.spec_to_repr(child_count).data@ =~= seq![0u32, 0u32, 0u32, 0u32, 0u32, 0u32, 0u32, 0u32, 0u32, 0u32, 0u32, 0u32]);
}

/// Law: a smooth union node is written with opcode `SMOOTH_UNION`, the child count it is given, its amount in slot 0; every other slot and the padding hold zero.
pub proof fn lemma_smooth_union_layout(node: ops::SmoothUnion, child_count: u32)
    ensures
        node.spec_to_repr(child_count).opcode == opcodes::SMOOTH_UNION,
        node.spec_to_repr(child_count).child_count == child_count,
        node.spec_to_repr(child_count).pad@ == seq![0u32, 0u32],
        node.spec_to_repr(child_count).data@ == seq![node.amount, 0u32, 0u32, 0u32, 0u32, 0u32, 0u32, 0u32, 0u32, 0u32, 0u32, 0u32],
{
    broadcast use vstd::array::group_array_axioms;

    assert(node.spec_to_repr(child_count).pad@ =~= seq![0u32, 0u32]);
    assert(node.spec_to_repr(child_count).data@ =~= seq![node.amount, 0u32, 0u32, 0u32, 0u32, 0u32, 0u32, 0u32, 0u32, 0u32, 0u32, 0u32]);
}

/// Law: a smooth intersect node is written with opcode `SMOOTH_INTERSECT`, the child count it is given, its amount in slot 0; every other slot and the padding hold zero.
pub proof fn lemma_smooth_intersect_layout(node: ops::SmoothIntersect, child_count: u32)
    ensures
        node.spec_to_repr(child_count).opcode == opcodes::SMOOTH_INTERSECT,
        node.spec_to_repr(child_count).child_count == child_count,
        node.spec_to_repr(child_count).pad@ == seq![0u32, 0u32],
        node.spec_to_repr(child_count).data@ == seq![node.amount, 0u32, 0u32, 0u32, 0u32, 0u32, 0u32, 0u32, 0u32, 0u32, 0u32, 0u32],
{
    broadcast use vstd::array::group_array_axioms;

    assert(node.spec_to_repr(child_count).pad@ =~= seq![0u32, 0u32]);
    assert(node.spec_to_repr(child_count).data@ =~= seq![node.amount, 0u32, 0u32, 0u32, 0u32, 0u32, 0u32, 0u32, 0u32, 0u32, 0u32, 0u32]);
}

/// Law: a difference node is written with opcode `DIFFERENCE`, the child count it is given, no parameters; every other slot and the padding hold zero.
pub proof fn lemma_difference_layout(node: ops::Difference, child_count: u32)
    ensures
        node.spec_to_repr(child_count).opcode == opcodes::DIFFERENCE,
        node.spec_to_repr(child_count).child_count == child_count,
        node.spec_to_repr(child_count).pad@ == seq![0u32, 0u32],
        node.spec_to_repr(child_count).data@ == seq![0u32, 0u32, 0u32, 0u32, 0u32, 0u32, 0u32, 0u32, 0u32, 0u32, 0u32, 0u32],
{
    broadcast use vstd::array::group_array_axioms;

    assert(node.spec_to_repr(child_count).pad@ =~= seq![0u32, 0u32]);
    assert(node.spec_to_repr(child_count).data@ =~= seq![0u32, 0u32, 0u32, 0u32, 0u32, 0u32, 0u32, 0u32, 0u32, 0u32, 0u32, 0u32]);
}

/// Law: a smooth difference node is written with opcode `SMOOTH_DIFFERENCE`, the child count it is given, its amount in slot 0; every other slot and the padding hold zero.
pub proof fn lemma_smooth_difference_layout(node: ops::SmoothDifference, child_count: u32)
    ensures
        node.spec_to_repr(child_count).opcode == opcodes::SMOOTH_DIFFERENCE,
        node.spec_to_repr(child_count).child_count == child_count,
        node.spec_to_repr(child_count).pad@ == seq![0u32, 0u32],
        node.spec_to_repr(child_count).data@ == seq![node.amount, 0u32, 0u32, 0u32, 0u32, 0u32, 0u32, 0u32, 0u32, 0u32, 0u32, 0u32],
{
    broadcast use vstd::array::group_array_axioms;

    assert(node.spec_to_repr(child_count).pad@ =~= seq![0u32, 0u32]);
    assert(node.spec_to_repr(child_count).data@ =~= seq![node.amount, 0u32, 0u32, 0u32, 0u32, 0u32, 0u32, 0u32, 0u32, 0u32, 0u32, 0u32]);
}

} // verus!
