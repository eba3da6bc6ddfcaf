use mesh_node::mesh::{Mesh, MeshBuilder};
use mesh_node::node::{BaseBuilder, Graph, Node};
use mesh_node::surface::{Surface, SurfaceData, Vertex, Weight};
use mesh_node::Handle;
use rg3d_core::color::Color;
use rg3d_core::math::aabb::AxisAlignedBoundingBox;
use rg3d_core::math::frustum::Frustum;
use rg3d_core::math::mat4::Mat4;
use rg3d_core::math::vec3::Vec3;
use std::sync::Arc;

fn assert_aabb_eq(a: &AxisAlignedBoundingBox, b: &AxisAlignedBoundingBox) {
    assert_eq!(a.min, b.min);
    assert_eq!(a.max, b.max);
}

fn weight(w: f32) -> Weight {
    Weight { factor: Vec3::new(w, 0.0, 0.0) }
}

fn rigid_vertex(x: f32, y: f32, z: f32) -> Vertex {
    Vertex { position: Vec3::new(x, y, z), bone_indices: vec![], bone_weights: vec![] }
}

fn rigid_surface(points: &[(f32, f32, f32)]) -> Surface {
    let vertices = points.iter().map(|&(x, y, z)| rigid_vertex(x, y, z)).collect();
    Surface::new(Arc::new(SurfaceData::new(vertices)), vec![])
}

fn mesh_with(surfaces: Vec<Surface>) -> Mesh {
    MeshBuilder::new(BaseBuilder::new()).with_surfaces(surfaces).build()
}

/// A frustum containing points with -1 < x < 1, -1 < y < 1, -1 < z < 3.
fn test_frustum() -> Frustum {
    Frustum::from(Mat4::ortho(-1.0, 1.0, -1.0, 1.0, -1.0, 1.0)).unwrap()
}

#[test]
fn empty_mesh_boxes_are_canonical_empty() {
    let mut mesh = mesh_with(vec![]);
    let empty = AxisAlignedBoundingBox::default();
    assert_aabb_eq(&mesh.bounding_box(), &empty);
    assert_aabb_eq(&mesh.world_bounding_box(), &empty);
    assert_aabb_eq(&mesh.full_world_bounding_box(&Graph::new()), &empty);
}

#[test]
fn bounding_box_encloses_all_vertices() {
    let mut mesh = mesh_with(vec![
        rigid_surface(&[(1.0, 2.0, 3.0), (-1.0, 0.0, 5.0)]),
        rigid_surface(&[(0.0, -4.0, 4.0)]),
    ]);
    let bb = mesh.bounding_box();
    assert_eq!(bb.min, Vec3::new(-1.0, -4.0, 3.0));
    assert_eq!(bb.max, Vec3::new(1.0, 2.0, 5.0));
}

#[test]
fn bounding_box_idempotent_bit_identical() {
    let mut mesh = mesh_with(vec![rigid_surface(&[(1.0, 2.0, 3.0), (-1.0, 0.0, 5.0)])]);
    let first = mesh.bounding_box();
    let second = mesh.bounding_box();
    assert_aabb_eq(&first, &second);
}

#[test]
fn add_surface_invalidates_cache() {
    let mut mesh = mesh_with(vec![rigid_surface(&[(1.0, 1.0, 1.0)])]);
    let before = mesh.bounding_box();
    assert_eq!(before.min, Vec3::new(1.0, 1.0, 1.0));
    assert_eq!(before.max, Vec3::new(1.0, 1.0, 1.0));
    mesh.add_surface(rigid_surface(&[(10.0, 0.0, 0.0)]));
    let after = mesh.bounding_box();
    assert_eq!(after.min, Vec3::new(1.0, 0.0, 0.0));
    assert_eq!(after.max, Vec3::new(10.0, 1.0, 1.0));
}

#[test]
fn clear_surfaces_invalidates_cache() {
    let mut mesh = mesh_with(vec![rigid_surface(&[(1.0, 1.0, 1.0)])]);
    let _ = mesh.bounding_box();
    mesh.clear_surfaces();
    assert!(mesh.surfaces().is_empty());
    assert_aabb_eq(&mesh.bounding_box(), &AxisAlignedBoundingBox::default());
}

#[test]
fn set_color_reaches_every_surface_and_keeps_box() {
    let mut mesh = mesh_with(vec![
        rigid_surface(&[(1.0, 1.0, 1.0)]),
        rigid_surface(&[(2.0, 2.0, 2.0)]),
    ]);
    let before = mesh.bounding_box();
    let color = Color::opaque(10, 20, 30);
    mesh.set_color(color);
    for surface in mesh.surfaces().iter() {
        assert_eq!(surface.color(), color);
    }
    let after = mesh.bounding_box();
    assert_aabb_eq(&before, &after);
}

#[test]
fn surfaces_mut_marks_cache_dirty() {
    let mut mesh = mesh_with(vec![rigid_surface(&[(1.0, 1.0, 1.0)])]);
    let _ = mesh.bounding_box();
    mesh.surfaces_mut().push(rigid_surface(&[(-3.0, 0.0, 0.0)]));
    let bb = mesh.bounding_box();
    assert_eq!(bb.min, Vec3::new(-3.0, 0.0, 0.0));
    assert_eq!(bb.max, Vec3::new(1.0, 1.0, 1.0));
}

#[test]
fn world_box_applies_global_transform() {
    let mesh = MeshBuilder::new(
        BaseBuilder::new().with_global_transform(Mat4::translate(Vec3::new(2.0, 3.0, 4.0))),
    )
    .with_surfaces(vec![rigid_surface(&[(1.0, 0.0, 0.0), (0.0, 1.0, 0.0)])])
    .build();
    let bb = mesh.world_bounding_box();
    assert_eq!(bb.min, Vec3::new(2.0, 3.0, 4.0));
    assert_eq!(bb.max, Vec3::new(3.0, 4.0, 4.0));
}

#[test]
fn identity_world_box_equals_local_box() {
    let mut mesh = mesh_with(vec![rigid_surface(&[(1.0, 2.0, 3.0), (-1.0, 0.0, 5.0)])]);
    let local = mesh.bounding_box();
    let world = mesh.world_bounding_box();
    assert_aabb_eq(&local, &world);
}

#[test]
fn rigid_full_world_box_equals_world_box() {
    let mesh = MeshBuilder::new(
        BaseBuilder::new().with_global_transform(Mat4::translate(Vec3::new(2.0, 3.0, 4.0))),
    )
    .with_surfaces(vec![
        rigid_surface(&[(1.0, 0.0, 0.0), (0.0, 1.0, 0.0)]),
        rigid_surface(&[(0.0, 0.0, 7.0)]),
    ])
    .build();
    let graph = Graph::new();
    let world = mesh.world_bounding_box();
    let full = mesh.full_world_bounding_box(&graph);
    assert_aabb_eq(&world, &full);
}

#[test]
fn skinning_blends_two_bones() {
    let mut graph = Graph::new();
    let bone_a = graph.add_node(Node::Base(BaseBuilder::new().build()));
    let bone_b = graph.add_node(Node::Base(
        BaseBuilder::new().with_global_transform(Mat4::translate(Vec3::new(10.0, 0.0, 0.0))).build(),
    ));
    let vertex = Vertex {
        position: Vec3::new(0.0, 0.0, 0.0),
        bone_indices: vec![0, 1],
        bone_weights: vec![weight(0.5), weight(0.5)],
    };
    let surface = Surface::new(Arc::new(SurfaceData::new(vec![vertex])), vec![bone_a, bone_b]);
    let mesh = mesh_with(vec![surface]);
    let bb = mesh.full_world_bounding_box(&graph);
    assert_eq!(bb.min, Vec3::new(5.0, 0.0, 0.0));
    assert_eq!(bb.max, Vec3::new(5.0, 0.0, 0.0));
}

#[test]
fn skinning_applies_inverse_bind_pose() {
    let mut graph = Graph::new();
    let bone = graph.add_node(Node::Base(
        BaseBuilder::new()
            .with_global_transform(Mat4::translate(Vec3::new(10.0, 0.0, 0.0)))
            .with_inv_bind_pose_transform(Mat4::translate(Vec3::new(-2.0, 0.0, 0.0)))
            .build(),
    ));
    let vertex = Vertex {
        position: Vec3::new(0.0, 0.0, 0.0),
        bone_indices: vec![0],
        bone_weights: vec![weight(1.0)],
    };
    let surface = Surface::new(Arc::new(SurfaceData::new(vec![vertex])), vec![bone]);
    let mesh = mesh_with(vec![surface]);
    let bb = mesh.full_world_bounding_box(&graph);
    assert_eq!(bb.min, Vec3::new(8.0, 0.0, 0.0));
    assert_eq!(bb.max, Vec3::new(8.0, 0.0, 0.0));
}

#[test]
fn zero_weight_vertex_contributes_origin() {
    let mut graph = Graph::new();
    let bone = graph.add_node(Node::Base(
        BaseBuilder::new().with_global_transform(Mat4::translate(Vec3::new(7.0, 0.0, 0.0))).build(),
    ));
    // The vertex sits away from the origin, but with every weight zero its
    // blended position is the origin, not its local position.
    let vertex = Vertex {
        position: Vec3::new(3.0, 4.0, 5.0),
        bone_indices: vec![0],
        bone_weights: vec![weight(0.0)],
    };
    let surface = Surface::new(Arc::new(SurfaceData::new(vec![vertex])), vec![bone]);
    let mesh = mesh_with(vec![surface]);
    let bb = mesh.full_world_bounding_box(&graph);
    assert_eq!(bb.min, Vec3::new(0.0, 0.0, 0.0));
    assert_eq!(bb.max, Vec3::new(0.0, 0.0, 0.0));
}

#[test]
fn frustum_fallback_finds_bone_inside() {
    let mut graph = Graph::new();
    let bone = graph.add_node(Node::Base(BaseBuilder::new().build()));
    // Geometry far outside the frustum, but the bone sits at the origin,
    // inside it.
    let surface = Surface::new(
        Arc::new(SurfaceData::new(vec![rigid_vertex(-5.0, 0.0, 0.0)])),
        vec![bone],
    );
    let mut mesh = mesh_with(vec![surface]);
    assert!(mesh.is_intersect_frustum(&graph, &test_frustum()));
}

#[test]
fn frustum_short_circuits_on_box_hit() {
    let mut graph = Graph::new();
    let far_bone = graph.add_node(Node::Base(
        BaseBuilder::new().with_global_transform(Mat4::translate(Vec3::new(-5.0, 0.0, 0.0))).build(),
    ));
    let surface = Surface::new(
        Arc::new(SurfaceData::new(vec![rigid_vertex(0.0, 0.0, 0.0)])),
        vec![far_bone],
    );
    let mut mesh = mesh_with(vec![surface]);
    assert!(mesh.is_intersect_frustum(&graph, &test_frustum()));
}

#[test]
fn frustum_misses_box_and_bones() {
    let mut graph = Graph::new();
    let far_bone = graph.add_node(Node::Base(
        BaseBuilder::new().with_global_transform(Mat4::translate(Vec3::new(-5.0, 0.0, 0.0))).build(),
    ));
    let surface = Surface::new(
        Arc::new(SurfaceData::new(vec![rigid_vertex(-5.0, 0.0, 0.0)])),
        vec![far_bone],
    );
    let mut mesh = mesh_with(vec![surface]);
    assert!(!mesh.is_intersect_frustum(&graph, &test_frustum()));
}

#[test]
fn builder_starts_without_surfaces() {
    let mut mesh = MeshBuilder::new(BaseBuilder::new()).build();
    assert!(mesh.surfaces().is_empty());
    assert_aabb_eq(&mesh.bounding_box(), &AxisAlignedBoundingBox::default());
}

#[test]
fn build_node_wraps_mesh() {
    let node = MeshBuilder::new(BaseBuilder::new())
        .with_surfaces(vec![rigid_surface(&[(1.0, 1.0, 1.0)])])
        .build_node();
    match node {
        Node::Mesh(mesh) => assert_eq!(mesh.surfaces().len(), 1),
        Node::Base(_) => panic!("expected a mesh node"),
    }
}

#[test]
fn graph_lookup_returns_added_nodes() {
    let mut graph = Graph::new();
    let a = graph.add_node(Node::Base(BaseBuilder::new().build()));
    let b = graph.add_node(Node::Base(
        BaseBuilder::new().with_global_transform(Mat4::translate(Vec3::new(1.0, 2.0, 3.0))).build(),
    ));
    assert_eq!(a, Handle { index: 0 });
    assert_eq!(b, Handle { index: 1 });
    assert_eq!(graph.node(a).base().global_position(), Vec3::new(0.0, 0.0, 0.0));
    assert_eq!(graph.node(b).base().global_position(), Vec3::new(1.0, 2.0, 3.0));
}

#[test]
fn new_surface_starts_white() {
    let surface = Surface::new(Arc::new(SurfaceData::new(vec![])), vec![]);
    assert_eq!(surface.color(), Color::WHITE);
    assert_eq!(surface.bones().len(), 0);
    assert_eq!(surface.data().vertices().len(), 0);
}

#[test]
fn shared_data_feeds_multiple_meshes() {
    let shared = Arc::new(SurfaceData::new(vec![
        rigid_vertex(1.0, 2.0, 3.0),
        rigid_vertex(-1.0, 0.0, 5.0),
    ]));
    let mut first = mesh_with(vec![Surface::new(Arc::clone(&shared), vec![])]);
    let mut second = mesh_with(vec![Surface::new(Arc::clone(&shared), vec![])]);
    assert_aabb_eq(&first.bounding_box(), &second.bounding_box());
    assert_eq!(first.bounding_box().min, Vec3::new(-1.0, 0.0, 3.0));
}

#[test]
fn default_mesh_is_empty_and_identity() {
    let mut mesh = Mesh::default();
    assert!(mesh.surfaces().is_empty());
    assert_aabb_eq(&mesh.bounding_box(), &AxisAlignedBoundingBox::default());
    assert_aabb_eq(&mesh.world_bounding_box(), &AxisAlignedBoundingBox::default());
}
