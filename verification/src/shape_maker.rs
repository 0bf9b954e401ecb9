//! Primitive builders: meshes enumerated by hand, and derived face normals.
//!
//! Vertices are set up with the origin at the shape's center; scaling,
//! rotation and world positioning happen in the transform builder.

use crate::fixed::{tdiv, FX_ONE};
use crate::mesh::{
    face_wf, faces_wf, idx_elems, seq_faces, total_face_verts_s, IdxArray, Mesh,
};
use crate::ops::Vec3s;
use crate::transforms::{pose_ok, vec3_pose_ok};
use crate::types::{cross_s, Normal, Vertex};
use std::collections::HashMap;
use vstd::prelude::*;

verus! {

broadcast use vstd::std_specs::hash::group_hash_axioms;

/// The edge vector from vertex `a` to vertex `b`.
pub open spec fn edge_s(a: Vertex, b: Vertex) -> Vec3s {
    Vec3s {
        x: b.position@.x - a.position@.x,
        y: b.position@.y - a.position@.y,
        z: b.position@.z - a.position@.z,
    }
}

/// The derived normal of a face: the cross product of the edges from its
/// first vertex to its second and to its third, in that order.
pub open spec fn face_normal_s(vertices: Map<u32, Vertex>, face: Seq<u32>) -> Vec3s {
    cross_s(
        edge_s(vertices[face[0]], vertices[face[1]]),
        edge_s(vertices[face[0]], vertices[face[2]]),
    )
}

/// Each face's first three vertex ids are present in the vertex map.
pub open spec fn face_verts_present(vertices: Map<u32, Vertex>, face: Seq<u32>) -> bool {
    &&& vertices.contains_key(face[0])
    &&& vertices.contains_key(face[1])
    &&& vertices.contains_key(face[2])
}

/// Every face can be resolved against the vertex map.
pub open spec fn faces_resolvable(vertices: Map<u32, Vertex>, faces: Seq<Seq<u32>>) -> bool {
    forall|i: int| 0 <= i < faces.len() ==> face_verts_present(vertices, #[trigger] faces[i])
}

/// Every vertex position is small enough for the transform pipeline.
pub open spec fn verts_pose_ok(vertices: Map<u32, Vertex>) -> bool {
    forall|k: u32| #[trigger] vertices.contains_key(k) ==> vec3_pose_ok(vertices[k].position@)
}

/// Derive one (unnormalized) normal per face from the vertex positions.
/// Stored normals on hand-built primitives take precedence over this path.
pub fn make_normals(vertices: &HashMap<u32, Vertex>, faces: &Vec<IdxArray>) -> (r: Vec<Normal>)
    requires
        faces_wf(seq_faces(faces@)),
        faces_resolvable(vertices@, seq_faces(faces@)),
        verts_pose_ok(vertices@),
    ensures
        r@.len() == faces@.len(),
        forall|i: int|
            0 <= i < faces@.len() ==> (#[trigger] r@[i]).normal@ == face_normal_s(
                vertices@,
                seq_faces(faces@)[i],
            ),
{
    let ghost fs = seq_faces(faces@);
    let mut normals: Vec<Normal> = Vec::new();
    let mut i: usize = 0;
    while i < faces.len()
        invariant
            0 <= i <= faces@.len(),
            fs == seq_faces(faces@),
            faces_wf(fs),
            faces_resolvable(vertices@, fs),
            verts_pose_ok(vertices@),
            normals@.len() == i,
            forall|k: int|
                0 <= k < i ==> (#[trigger] normals@[k]).normal@ == face_normal_s(
                    vertices@,
                    fs[k],
                ),
        decreases faces@.len() - i,
    {
        let face = &faces[i];
        proof {
            assert(fs[i as int] == idx_elems(faces@[i as int]));
            assert(face_wf(fs[i as int]));
            assert(face_verts_present(vertices@, fs[i as int]));
        }
        let id0: u32 = face.get(0);
        let id1: u32 = face.get(1);
        let id2: u32 = face.get(2);
        let v0 = *vertices.get(&id0).unwrap();
        let v1 = *vertices.get(&id1).unwrap();
        let v2 = *vertices.get(&id2).unwrap();
        let line1 = v1.subtract(&v0);
        let line2 = v2.subtract(&v0);
        normals.push(line1.cross(&line2));
        i += 1;
    }
    normals
}

/// The six quad faces of a box, with consistent winding.
pub open spec fn box_faces_s() -> Seq<Seq<u32>> {
    seq![
        seq![0u32, 1u32, 2u32, 3u32],
        seq![4u32, 5u32, 6u32, 7u32],
        seq![3u32, 2u32, 6u32, 7u32],
        seq![0u32, 1u32, 5u32, 4u32],
        seq![0u32, 4u32, 7u32, 3u32],
        seq![1u32, 5u32, 6u32, 2u32],
    ]
}

/// The six face normals of a box: front, back, top, bottom, left, right.
pub open spec fn box_normals_s() -> Seq<Vec3s> {
    seq![
        Vec3s { x: 0, y: 0, z: -(FX_ONE as int) },
        Vec3s { x: 0, y: 0, z: FX_ONE as int },
        Vec3s { x: 0, y: FX_ONE as int, z: 0 },
        Vec3s { x: 0, y: -(FX_ONE as int), z: 0 },
        Vec3s { x: -(FX_ONE as int), y: 0, z: 0 },
        Vec3s { x: FX_ONE as int, y: 0, z: 0 },
    ]
}

/// The corner `k` of a box with the given side lengths, centered at the
/// origin: four front corners, then the four back ones.
pub open spec fn box_vertex_s(lens: (i64, i64, i64), k: int) -> Vec3s {
    let hx = tdiv(lens.0 as int, 2);
    let hy = tdiv(lens.1 as int, 2);
    let hz = tdiv(lens.2 as int, 2);
    if k == 0 {
        Vec3s { x: -hx, y: -hy, z: -hz }
    } else if k == 1 {
        Vec3s { x: hx, y: -hy, z: -hz }
    } else if k == 2 {
        Vec3s { x: hx, y: hy, z: -hz }
    } else if k == 3 {
        Vec3s { x: -hx, y: hy, z: -hz }
    } else if k == 4 {
        Vec3s { x: -hx, y: -hy, z: hz }
    } else if k == 5 {
        Vec3s { x: hx, y: -hy, z: hz }
    } else if k == 6 {
        Vec3s { x: hx, y: hy, z: hz }
    } else {
        Vec3s { x: -hx, y: hy, z: hz }
    }
}

/// Make a rectangular prism: eight corner vertices, six quad faces with
/// explicit winding, and six face normals, mutually index-aligned.  Negative
/// lengths draw in the opposite direction.
pub fn box_(lens: (i64, i64, i64)) -> (r: Mesh)
    requires
        pose_ok(lens.0 as int),
        pose_ok(lens.1 as int),
        pose_ok(lens.2 as int),
    ensures
        r.wf(),
        r@.faces == box_faces_s(),
        r@.normals.len() == 6,
        forall|i: int| 0 <= i < 6 ==> (#[trigger] r@.normals[i]).normal@ == box_normals_s()[i],
        forall|k: u32| r@.vertices.contains_key(k) <==> k < 8,
        forall|k: u32| k < 8 ==> (#[trigger] r@.vertices[k]).position@ == box_vertex_s(
            lens,
            k as int,
        ),
{
    let hx: i64 = lens.0 / 2;
    let hy: i64 = lens.1 / 2;
    let hz: i64 = lens.2 / 2;

    let mut vertices: HashMap<u32, Vertex> = HashMap::new();
    vertices.insert(0, Vertex::new(-hx, -hy, -hz));
    vertices.insert(1, Vertex::new(hx, -hy, -hz));
    vertices.insert(2, Vertex::new(hx, hy, -hz));
    vertices.insert(3, Vertex::new(-hx, hy, -hz));
    vertices.insert(4, Vertex::new(-hx, -hy, hz));
    vertices.insert(5, Vertex::new(hx, -hy, hz));
    vertices.insert(6, Vertex::new(hx, hy, hz));
    vertices.insert(7, Vertex::new(-hx, hy, hz));

    let mut faces_vert: Vec<IdxArray> = Vec::new();
    faces_vert.push(IdxArray::from_vec(vec![0u32, 1u32, 2u32, 3u32]));
    faces_vert.push(IdxArray::from_vec(vec![4u32, 5u32, 6u32, 7u32]));
    faces_vert.push(IdxArray::from_vec(vec![3u32, 2u32, 6u32, 7u32]));
    faces_vert.push(IdxArray::from_vec(vec![0u32, 1u32, 5u32, 4u32]));
    faces_vert.push(IdxArray::from_vec(vec![0u32, 4u32, 7u32, 3u32]));
    faces_vert.push(IdxArray::from_vec(vec![1u32, 5u32, 6u32, 2u32]));

    let mut normals: Vec<Normal> = Vec::new();
    normals.push(Normal::new(0, 0, -FX_ONE));
    normals.push(Normal::new(0, 0, FX_ONE));
    normals.push(Normal::new(0, FX_ONE, 0));
    normals.push(Normal::new(0, -FX_ONE, 0));
    normals.push(Normal::new(-FX_ONE, 0, 0));
    normals.push(Normal::new(FX_ONE, 0, 0));

    let ghost fs = seq_faces(faces_vert@);
    proof {
        assert(fs =~= box_faces_s());
        assert(faces_wf(fs)) by {
            assert(forall|i: int| 0 <= i < 6 ==> (#[trigger] fs[i]).len() == 4);
        }
        lemma_total_of_box_faces(fs);
    }
    let mut mesh = Mesh {
        vertices,
        faces_vert,
        normals,
        tris: IdxArray::from_vec(Vec::new()),
    };
    mesh.make_tris();
    mesh
}

/// Six quad faces use exactly twenty-four vertex slots.
proof fn lemma_total_of_box_faces(fs: Seq<Seq<u32>>)
    requires
        fs.len() == 6,
        forall|i: int| 0 <= i < 6 ==> (#[trigger] fs[i]).len() == 4,
    ensures
        total_face_verts_s(fs) == 24,
{
    let s5 = fs.drop_last();
    let s4 = s5.drop_last();
    let s3 = s4.drop_last();
    let s2 = s3.drop_last();
    let s1 = s2.drop_last();
    let s0 = s1.drop_last();
    assert(s0.len() == 0);
    assert(total_face_verts_s(s0) == 0);
    assert(total_face_verts_s(s1) == 4);
    assert(total_face_verts_s(s2) == 8);
    assert(total_face_verts_s(s3) == 12);
    assert(total_face_verts_s(s4) == 16);
    assert(total_face_verts_s(s5) == 20);
}

/// The five faces of a rectangular pyramid: the quad base, then the four
/// triangular sides.
pub open spec fn pyramid_faces_s() -> Seq<Seq<u32>> {
    seq![
        seq![0u32, 1u32, 2u32, 3u32],
        seq![0u32, 1u32, 4u32],
        seq![1u32, 2u32, 4u32],
        seq![2u32, 3u32, 4u32],
        seq![3u32, 0u32, 4u32],
    ]
}

/// The corner `k` of a rectangular pyramid: the four base corners around
/// the origin (the center of the base square), then the apex.
pub open spec fn pyramid_vertex_s(lens: (i64, i64, i64), k: int) -> Vec3s {
    let hx = tdiv(lens.0 as int, 2);
    let hy = tdiv(lens.1 as int, 2);
    let hz = tdiv(lens.2 as int, 2);
    if k == 0 {
        Vec3s { x: -hx, y: 0, z: -hz }
    } else if k == 1 {
        Vec3s { x: hx, y: 0, z: -hz }
    } else if k == 2 {
        Vec3s { x: hx, y: 0, z: hz }
    } else if k == 3 {
        Vec3s { x: -hx, y: 0, z: hz }
    } else {
        Vec3s { x: 0, y: hy, z: 0 }
    }
}

/// The five face normals of a rectangular pyramid, unnormalized (the
/// consumer normalizes): the base faces down; each side tilts by the base
/// and height lengths.
pub open spec fn pyramid_normals_s(lens: (i64, i64, i64)) -> Seq<Vec3s> {
    seq![
        Vec3s { x: 0, y: -(FX_ONE as int), z: 0 },
        Vec3s { x: 0, y: lens.2 as int, z: -(lens.1 as int) },
        Vec3s { x: -(lens.2 as int), y: lens.1 as int, z: 0 },
        Vec3s { x: 0, y: lens.2 as int, z: lens.1 as int },
        Vec3s { x: lens.2 as int, y: lens.1 as int, z: 0 },
    ]
}

/// Make a rectangular pyramid: a quad base around the origin and four
/// triangular sides meeting at the apex.
pub fn _rect_pyramid(lens: (i64, i64, i64)) -> (r: Mesh)
    requires
        pose_ok(lens.0 as int),
        pose_ok(lens.1 as int),
        pose_ok(lens.2 as int),
    ensures
        r.wf(),
        r@.faces == pyramid_faces_s(),
        r@.normals.len() == 5,
        forall|i: int|
            0 <= i < 5 ==> (#[trigger] r@.normals[i]).normal@ == pyramid_normals_s(lens)[i],
        forall|k: u32| r@.vertices.contains_key(k) <==> k < 5,
        forall|k: u32|
            k < 5 ==> (#[trigger] r@.vertices[k]).position@ == pyramid_vertex_s(lens, k as int),
{
    let hx: i64 = lens.0 / 2;
    let hy: i64 = lens.1 / 2;
    let hz: i64 = lens.2 / 2;

    let mut vertices: HashMap<u32, Vertex> = HashMap::new();
    vertices.insert(0, Vertex::new(-hx, 0, -hz));
    vertices.insert(1, Vertex::new(hx, 0, -hz));
    vertices.insert(2, Vertex::new(hx, 0, hz));
    vertices.insert(3, Vertex::new(-hx, 0, hz));
    vertices.insert(4, Vertex::new(0, hy, 0));

    let mut faces_vert: Vec<IdxArray> = Vec::new();
    faces_vert.push(IdxArray::from_vec(vec![0u32, 1u32, 2u32, 3u32]));
    faces_vert.push(IdxArray::from_vec(vec![0u32, 1u32, 4u32]));
    faces_vert.push(IdxArray::from_vec(vec![1u32, 2u32, 4u32]));
    faces_vert.push(IdxArray::from_vec(vec![2u32, 3u32, 4u32]));
    faces_vert.push(IdxArray::from_vec(vec![3u32, 0u32, 4u32]));

    let mut normals: Vec<Normal> = Vec::new();
    normals.push(Normal::new(0, -FX_ONE, 0));
    normals.push(Normal::new(0, lens.2, -lens.1));
    normals.push(Normal::new(-lens.2, lens.1, 0));
    normals.push(Normal::new(0, lens.2, lens.1));
    normals.push(Normal::new(lens.2, lens.1, 0));

    let ghost fs = seq_faces(faces_vert@);
    proof {
        assert(fs =~= pyramid_faces_s());
        assert(faces_wf(fs)) by {
            assert(fs[0].len() == 4);
            assert(forall|i: int| 1 <= i < 5 ==> (#[trigger] fs[i]).len() == 3);
        }
        lemma_total_of_pyramid_faces(fs);
    }
    let mut mesh = Mesh {
        vertices,
        faces_vert,
        normals,
        tris: IdxArray::from_vec(Vec::new()),
    };
    mesh.make_tris();
    mesh
}

/// A quad base and four triangular sides use exactly sixteen vertex slots.
proof fn lemma_total_of_pyramid_faces(fs: Seq<Seq<u32>>)
    requires
        fs.len() == 5,
        fs[0].len() == 4,
        forall|i: int| 1 <= i < 5 ==> (#[trigger] fs[i]).len() == 3,
    ensures
        total_face_verts_s(fs) == 16,
{
    let s4 = fs.drop_last();
    let s3 = s4.drop_last();
    let s2 = s3.drop_last();
    let s1 = s2.drop_last();
    let s0 = s1.drop_last();
    assert(s0.len() == 0);
    assert(total_face_verts_s(s0) == 0);
    assert(total_face_verts_s(s1) == 4);
    assert(total_face_verts_s(s2) == 7);
    assert(total_face_verts_s(s3) == 10);
    assert(total_face_verts_s(s4) == 13);
}

/// A cube: a box with one side length for all three axes.  The center is
/// the center of the cube.
pub fn cube(side_len: i64) -> (r: Mesh)
    requires
        pose_ok(side_len as int),
    ensures
        r.wf(),
        r@.faces == box_faces_s(),
        r@.normals.len() == 6,
        forall|i: int| 0 <= i < 6 ==> (#[trigger] r@.normals[i]).normal@ == box_normals_s()[i],
        forall|k: u32| r@.vertices.contains_key(k) <==> k < 8,
        forall|k: u32|
            k < 8 ==> (#[trigger] r@.vertices[k]).position@ == box_vertex_s(
                (side_len, side_len, side_len),
                k as int,
            ),
{
    box_((side_len, side_len, side_len))
}

} // verus!
