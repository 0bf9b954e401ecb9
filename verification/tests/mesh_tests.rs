use scene_core::fixed::FX_ONE;
use scene_core::mesh::{IdxArray, Mesh, MeshError};
use scene_core::shape_maker::{box_, cube, make_normals, _rect_pyramid};
use scene_core::types::{Normal, VertAndExtras, Vertex};
use std::collections::HashMap;

fn idx(v: Vec<u32>) -> IdxArray {
    IdxArray::from_vec(v)
}

fn tris_of(m: &Mesh) -> Vec<u32> {
    let mut out: Vec<u32> = Vec::new();
    let mut i: usize = 0;
    while i < m.tris.len() {
        out.push(m.tris.get(i));
        i += 1;
    }
    out
}

fn square_vertices() -> HashMap<u32, Vertex> {
    let mut vertices = HashMap::new();
    vertices.insert(0, Vertex::new(0, 0, 0));
    vertices.insert(1, Vertex::new(FX_ONE, 0, 0));
    vertices.insert(2, Vertex::new(FX_ONE, FX_ONE, 0));
    vertices.insert(3, Vertex::new(0, FX_ONE, 0));
    vertices
}

#[test]
fn quad_face_fans_into_two_triangles() {
    let mesh = Mesh::new(
        square_vertices(),
        vec![idx(vec![0, 1, 2, 3])],
        vec![Normal::new(0, 0, FX_ONE)],
    )
    .unwrap();
    assert_eq!(tris_of(&mesh), vec![0, 1, 2, 0, 2, 3]);
}

#[test]
fn triangle_face_keeps_its_indices() {
    let mesh = Mesh::new(
        square_vertices(),
        vec![idx(vec![0, 1, 2])],
        vec![Normal::new(0, 0, FX_ONE)],
    )
    .unwrap();
    assert_eq!(tris_of(&mesh), vec![0, 1, 2]);
}

#[test]
fn mixed_faces_accumulate_slot_offsets() {
    let mesh = Mesh::new(
        square_vertices(),
        vec![idx(vec![0, 1, 2, 3]), idx(vec![0, 2, 3])],
        vec![Normal::new(0, 0, FX_ONE), Normal::new(0, 0, FX_ONE)],
    )
    .unwrap();
    assert_eq!(tris_of(&mesh), vec![0, 1, 2, 0, 2, 3, 4, 5, 6]);
}

#[test]
fn short_face_is_an_invalid_mesh() {
    let r = Mesh::new(
        square_vertices(),
        vec![idx(vec![0, 1])],
        vec![Normal::new(0, 0, FX_ONE)],
    );
    assert_eq!(r.err(), Some(MeshError::InvalidFace));
}

#[test]
fn long_face_is_an_invalid_mesh() {
    let r = Mesh::new(
        square_vertices(),
        vec![idx(vec![0, 1, 2, 3, 0])],
        vec![Normal::new(0, 0, FX_ONE)],
    );
    assert_eq!(r.err(), Some(MeshError::InvalidFace));
}

#[test]
fn unpaired_normals_are_rejected() {
    let r = Mesh::new(square_vertices(), vec![idx(vec![0, 1, 2, 3])], Vec::new());
    assert_eq!(r.err(), Some(MeshError::NormalCountMismatch));
}

#[test]
fn box_has_six_quads_and_twenty_four_slots() {
    let mesh = box_((2 * FX_ONE, 4 * FX_ONE, 6 * FX_ONE));
    assert_eq!(mesh.faces_vert.len(), 6);
    assert_eq!(mesh.normals.len(), 6);
    assert_eq!(mesh.vertices.len(), 8);
    assert_eq!(mesh.num_face_verts(), 24);
    // Corner 6 is the (+x, +y, +z) corner at half the side lengths.
    let c6 = mesh.vertices.get(&6).unwrap();
    assert_eq!(c6.position.x, FX_ONE);
    assert_eq!(c6.position.y, 2 * FX_ONE);
    assert_eq!(c6.position.z, 3 * FX_ONE);
    // The triangle cache decomposes each quad in order.
    let tris = tris_of(&mesh);
    assert_eq!(tris.len(), 36);
    assert_eq!(&tris[0..6], &[0, 1, 2, 0, 2, 3]);
    assert_eq!(&tris[6..12], &[4, 5, 6, 4, 6, 7]);
}

#[test]
fn cube_is_a_box_with_equal_sides() {
    let mesh = cube(2 * FX_ONE);
    let c6 = mesh.vertices.get(&6).unwrap();
    assert_eq!(c6.position.x, FX_ONE);
    assert_eq!(c6.position.y, FX_ONE);
    assert_eq!(c6.position.z, FX_ONE);
}

#[test]
fn pyramid_has_a_quad_base_and_four_sides() {
    let mesh = _rect_pyramid((2 * FX_ONE, 2 * FX_ONE, 2 * FX_ONE));
    assert_eq!(mesh.faces_vert.len(), 5);
    assert_eq!(mesh.num_face_verts(), 16);
    let apex = mesh.vertices.get(&4).unwrap();
    assert_eq!((apex.position.x, apex.position.y, apex.position.z), (0, FX_ONE, 0));
    assert_eq!(tris_of(&mesh), vec![0, 1, 2, 0, 2, 3, 4, 5, 6, 7, 8, 9, 10, 11, 12, 13, 14, 15]);
}

#[test]
fn derived_normal_is_the_edge_cross_product() {
    // A unit square in the xy plane wound counter-clockwise: the two edges
    // from vertex 0 are +x and +y, whose cross product points along +z.
    let vertices = square_vertices();
    let faces = vec![idx(vec![0, 1, 2, 3])];
    let normals = make_normals(&vertices, &faces);
    assert_eq!(normals.len(), 1);
    let n = normals[0].normal;
    assert_eq!((n.x, n.y, n.z), (0, 0, FX_ONE));
}

#[test]
fn vert_and_extras_homogenizes() {
    let v = Vertex::new(FX_ONE, 2 * FX_ONE, 3 * FX_ONE);
    let n = Normal::new(0, 0, FX_ONE);
    let out = VertAndExtras::new(v, n, FX_ONE / 2);
    assert_eq!(
        (out.position.x, out.position.y, out.position.z, out.position.w),
        (FX_ONE, 2 * FX_ONE, 3 * FX_ONE, FX_ONE)
    );
    assert_eq!((out.normal.x, out.normal.y, out.normal.z, out.normal.w), (0, 0, FX_ONE, FX_ONE));
    assert_eq!(out.specular_intensity, FX_ONE / 2);
}

#[test]
fn make_tris_refreshes_after_face_changes() {
    let mut mesh = Mesh::new(
        square_vertices(),
        vec![idx(vec![0, 1, 2])],
        vec![Normal::new(0, 0, FX_ONE)],
    )
    .unwrap();
    mesh.faces_vert = vec![idx(vec![0, 1, 2, 3])];
    mesh.normals = vec![Normal::new(0, 0, FX_ONE)];
    mesh.make_tris();
    assert_eq!(tris_of(&mesh), vec![0, 1, 2, 0, 2, 3]);
}
