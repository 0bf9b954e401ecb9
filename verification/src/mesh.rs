//! Meshes: vertex storage, faces, normals and the cached triangle indices.
//!
//! Faces and the triangle cache are held in one-dimensional `ndarray`
//! arrays; what such an array holds is named by `idx_elems`, and the few
//! array operations the mesh logic needs are trusted wrappers specified
//! over that name.

use crate::types::{Normal, Vertex};
use std::collections::HashMap;
use vstd::prelude::*;

verus! {

/// A one-dimensional `ndarray` array of `u32` indices.  Verus cannot take
/// `ndarray::ArrayBase`'s generics, so the array sits in a hidden field and
/// is reached only through the trusted wrappers below.
#[verifier::external_body]
pub struct IdxArray {
    inner: ndarray::Array1<u32>,
}

/// The elements a one-dimensional index array holds, in order.
pub uninterp spec fn idx_elems(a: IdxArray) -> Seq<u32>;

impl IdxArray {
    /// Relies on ndarray::Array1::from_vec: builds a one-dimensional array
    /// holding exactly the vector's elements, in order.
    #[verifier::external_body]
    pub fn from_vec(v: Vec<u32>) -> (a: IdxArray)
        ensures
            idx_elems(a) == v@,
    {
        IdxArray { inner: ndarray::Array1::from_vec(v) }
    }

    /// Relies on ndarray::ArrayBase::len: the number of elements the array
    /// holds.
    #[verifier::external_body]
    pub fn len(&self) -> (n: usize)
        ensures
            n == idx_elems(*self).len(),
    {
        self.inner.len()
    }

    /// Relies on ndarray's indexing (`Index` on `ArrayBase`): the element
    /// at `i`.
    #[verifier::external_body]
    pub fn get(&self, i: usize) -> (r: u32)
        requires
            i < idx_elems(*self).len(),
        ensures
            r == idx_elems(*self)[i as int],
    {
        self.inner[i]
    }
}

/// The contents of a sequence of index arrays.
pub open spec fn seq_faces(s: Seq<IdxArray>) -> Seq<Seq<u32>> {
    s.map_values(|a: IdxArray| idx_elems(a))
}

/// A face has exactly three or four vertex ids.
pub open spec fn face_wf(f: Seq<u32>) -> bool {
    f.len() == 3 || f.len() == 4
}

/// Every face has exactly three or four vertex ids.
pub open spec fn faces_wf(faces: Seq<Seq<u32>>) -> bool {
    forall|i: int| 0 <= i < faces.len() ==> face_wf(#[trigger] faces[i])
}

/// The number of vertex slots all faces use together.
pub open spec fn total_face_verts_s(faces: Seq<Seq<u32>>) -> int
    decreases faces.len(),
{
    if faces.len() == 0 {
        0
    } else {
        total_face_verts_s(faces.drop_last()) + faces.last().len()
    }
}

/// The triangle indices of one face, counted from the face's first slot in
/// the index buffer: a triangle keeps its three slots; a quad `[a, b, c, d]`
/// becomes the fan `(a, b, c)`, `(a, c, d)`.
pub open spec fn tri_face_s(f: Seq<u32>, base: int) -> Seq<u32> {
    if f.len() == 3 {
        seq![base as u32, (base + 1) as u32, (base + 2) as u32]
    } else if f.len() == 4 {
        seq![
            base as u32,
            (base + 1) as u32,
            (base + 2) as u32,
            base as u32,
            (base + 2) as u32,
            (base + 3) as u32,
        ]
    } else {
        Seq::empty()
    }
}

/// The triangle-index sequence of all faces, in face order, each face based
/// at its cumulative first slot.
pub open spec fn tri_seq_s(faces: Seq<Seq<u32>>) -> Seq<u32>
    decreases faces.len(),
{
    if faces.len() == 0 {
        Seq::empty()
    } else {
        tri_seq_s(faces.drop_last()) + tri_face_s(
            faces.last(),
            total_face_verts_s(faces.drop_last()),
        )
    }
}

/// The vertex-slot total is never negative.
pub proof fn lemma_total_nonneg(faces: Seq<Seq<u32>>)
    ensures
        0 <= total_face_verts_s(faces),
    decreases faces.len(),
{
    if faces.len() > 0 {
        lemma_total_nonneg(faces.drop_last());
    }
}

/// Extending a prefix by one face adds that face's vertex count.
pub proof fn lemma_total_snoc(faces: Seq<Seq<u32>>, i: int)
    requires
        0 <= i < faces.len(),
    ensures
        total_face_verts_s(faces.take(i + 1)) == total_face_verts_s(faces.take(i))
            + faces[i].len(),
{
    assert(faces.take(i + 1).drop_last() =~= faces.take(i));
    assert(faces.take(i + 1).last() == faces[i]);
}

/// A prefix never uses more vertex slots than the whole.
pub proof fn lemma_total_prefix_le(faces: Seq<Seq<u32>>, j: int)
    requires
        0 <= j <= faces.len(),
    ensures
        total_face_verts_s(faces.take(j)) <= total_face_verts_s(faces),
    decreases faces.len() - j,
{
    if j == faces.len() {
        assert(faces.take(j) =~= faces);
    } else {
        lemma_total_snoc(faces, j);
        lemma_total_prefix_le(faces, j + 1);
    }
}

/// With every face well formed, the faces use at least three slots each.
pub proof fn lemma_total_lower(faces: Seq<Seq<u32>>)
    requires
        faces_wf(faces),
    ensures
        total_face_verts_s(faces) >= 3 * faces.len(),
    decreases faces.len(),
{
    if faces.len() > 0 {
        assert(faces_wf(faces.drop_last())) by {
            assert(forall|i: int|
                0 <= i < faces.len() - 1 ==> faces.drop_last()[i] == #[trigger] faces[i]);
        }
        lemma_total_lower(faces.drop_last());
        assert(face_wf(faces[faces.len() - 1]));
    }
}

/// Ghost twin of `Mesh`.
pub ghost struct MeshV {
    pub vertices: Map<u32, Vertex>,
    pub faces: Seq<Seq<u32>>,
    pub normals: Seq<Normal>,
    pub tris: Seq<u32>,
}

/// A rigid polyhedron: vertices by id, faces as ordered vertex-id lists
/// with significant winding, one normal per face, and the cached
/// triangle-index sequence, recomputed whenever the faces change.
pub struct Mesh {
    pub vertices: HashMap<u32, Vertex>,
    pub faces_vert: Vec<IdxArray>,
    pub normals: Vec<Normal>,
    pub tris: IdxArray,
}

impl View for Mesh {
    type V = MeshV;

    open spec fn view(&self) -> MeshV {
        MeshV {
            vertices: self.vertices@,
            faces: seq_faces(self.faces_vert@),
            normals: self.normals@,
            tris: idx_elems(self.tris),
        }
    }
}

/// Why a mesh could not be built.
#[derive(Clone, Copy, Debug, PartialEq, Eq, Structural)]
pub enum MeshError {
    /// A face whose vertex count is not three or four.
    InvalidFace,
    /// More face-vertex slots in all than a `u32` index can address.
    TooManyFaceVerts,
    /// The normals do not pair up one to one with the faces.
    NormalCountMismatch,
}

impl Mesh {
    /// The mesh invariant: well-formed faces, a slot total a `u32` can
    /// address, one normal per face, and a triangle cache that matches the
    /// faces.
    pub open spec fn wf(&self) -> bool {
        &&& faces_wf(self@.faces)
        &&& total_face_verts_s(self@.faces) <= u32::MAX as int
        &&& self@.normals.len() == self@.faces.len()
        &&& self@.tris == tri_seq_s(self@.faces)
    }

    /// Build a mesh, validating once here: every face must have three or
    /// four vertex ids, the slot total must fit a `u32` index, and the
    /// normals must pair up with the faces.  On success the triangle cache
    /// is computed.
    pub fn new(vertices: HashMap<u32, Vertex>, faces_vert: Vec<IdxArray>, normals: Vec<Normal>) -> (r:
        Result<Mesh, MeshError>)
        ensures
            normals@.len() != faces_vert@.len() ==> r == Err::<Mesh, MeshError>(
                MeshError::NormalCountMismatch,
            ),
            normals@.len() == faces_vert@.len() && !faces_wf(seq_faces(faces_vert@)) ==> r == Err::<
                Mesh,
                MeshError,
            >(MeshError::InvalidFace),
            normals@.len() == faces_vert@.len() && faces_wf(seq_faces(faces_vert@))
                && total_face_verts_s(seq_faces(faces_vert@)) > u32::MAX as int ==> r == Err::<
                Mesh,
                MeshError,
            >(MeshError::TooManyFaceVerts),
            r matches Ok(m) <==> (normals@.len() == faces_vert@.len() && faces_wf(
                seq_faces(faces_vert@),
            ) && total_face_verts_s(seq_faces(faces_vert@)) <= u32::MAX as int),
            r matches Ok(m) ==> m.wf() && m@.vertices == vertices@ && m@.faces == seq_faces(
                faces_vert@,
            ) && m@.normals == normals@,
    {
        let ghost faces = seq_faces(faces_vert@);
        if normals.len() != faces_vert.len() {
            return Err(MeshError::NormalCountMismatch);
        }
        let mut i: usize = 0;
        while i < faces_vert.len()
            invariant
                0 <= i <= faces_vert@.len(),
                normals@.len() == faces_vert@.len(),
                faces == seq_faces(faces_vert@),
                forall|k: int| 0 <= k < i ==> face_wf(#[trigger] faces[k]),
            decreases faces_vert@.len() - i,
        {
            let n: usize = faces_vert[i].len();
            proof {
                assert(faces[i as int] == idx_elems(faces_vert@[i as int]));
            }
            if n != 3 && n != 4 {
                assert(!face_wf(faces[i as int]));
                return Err(MeshError::InvalidFace);
            }
            i += 1;
        }
        assert(faces_wf(faces));
        if faces_vert.len() > 1431655765 {
            proof {
                lemma_total_lower(faces);
            }
            return Err(MeshError::TooManyFaceVerts);
        }
        let mut total: u64 = 0;
        let mut j: usize = 0;
        while j < faces_vert.len()
            invariant
                0 <= j <= faces_vert@.len(),
                faces_vert@.len() <= 1431655765,
                faces == seq_faces(faces_vert@),
                faces_wf(faces),
                total == total_face_verts_s(faces.take(j as int)),
                total <= 4 * (j as int),
            decreases faces_vert@.len() - j,
        {
            let n: usize = faces_vert[j].len();
            proof {
                assert(faces[j as int] == idx_elems(faces_vert@[j as int]));
                assert(face_wf(faces[j as int]));
                lemma_total_snoc(faces, j as int);
            }
            total = total + n as u64;
            j += 1;
        }
        proof {
            assert(faces.take(faces_vert@.len() as int) =~= faces);
        }
        if total > 4294967295 {
            return Err(MeshError::TooManyFaceVerts);
        }
        let mut mesh = Mesh { vertices, faces_vert, normals, tris: IdxArray::from_vec(Vec::new()) };
        mesh.make_tris();
        Ok(mesh)
    }

    /// Recompute the cached triangle-index sequence from the faces, per the
    /// fan decomposition.  Must be invoked after any face mutation; the
    /// other fields are untouched.
    pub fn make_tris(&mut self)
        requires
            faces_wf(seq_faces(old(self).faces_vert@)),
            total_face_verts_s(seq_faces(old(self).faces_vert@)) <= u32::MAX as int,
        ensures
            final(self).vertices == old(self).vertices,
            final(self).faces_vert == old(self).faces_vert,
            final(self).normals == old(self).normals,
            idx_elems(final(self).tris) == tri_seq_s(seq_faces(old(self).faces_vert@)),
    {
        let ghost faces = seq_faces(self.faces_vert@);
        let mut result: Vec<u32> = Vec::new();
        let mut current_i: u32 = 0;
        let mut i: usize = 0;
        while i < self.faces_vert.len()
            invariant
                0 <= i <= self.faces_vert@.len(),
                *self == *old(self),
                faces == seq_faces(self.faces_vert@),
                faces_wf(faces),
                total_face_verts_s(faces) <= u32::MAX as int,
                current_i == total_face_verts_s(faces.take(i as int)),
                result@ == tri_seq_s(faces.take(i as int)),
            decreases self.faces_vert@.len() - i,
        {
            let n: usize = self.faces_vert[i].len();
            proof {
                assert(faces[i as int] == idx_elems(self.faces_vert@[i as int]));
                assert(face_wf(faces[i as int]));
                lemma_total_snoc(faces, i as int);
                lemma_total_prefix_le(faces, i as int + 1);
                lemma_total_nonneg(faces.take(i as int));
            }
            if n == 3 {
                result.push(current_i);
                result.push(current_i + 1);
                result.push(current_i + 2);
            } else {
                result.push(current_i);
                result.push(current_i + 1);
                result.push(current_i + 2);
                result.push(current_i);
                result.push(current_i + 2);
                result.push(current_i + 3);
            }
            proof {
                assert(faces.take(i as int + 1).drop_last() =~= faces.take(i as int));
                assert(faces.take(i as int + 1).last() == faces[i as int]);
                assert(result@ =~= tri_seq_s(faces.take(i as int + 1)));
            }
            current_i = current_i + n as u32;
            i += 1;
        }
        proof {
            assert(faces.take(self.faces_vert@.len() as int) =~= faces);
        }
        self.tris = IdxArray::from_vec(result);
    }

    /// The number of vertex slots used in drawing faces: for a box, six
    /// faces of four vertices each.
    pub fn num_face_verts(&self) -> (r: u32)
        requires
            faces_wf(self@.faces),
            total_face_verts_s(self@.faces) <= u32::MAX as int,
        ensures
            r == total_face_verts_s(self@.faces),
    {
        let ghost faces = seq_faces(self.faces_vert@);
        let mut acc: u32 = 0;
        let mut i: usize = 0;
        while i < self.faces_vert.len()
            invariant
                0 <= i <= self.faces_vert@.len(),
                faces == seq_faces(self.faces_vert@),
                faces_wf(faces),
                total_face_verts_s(faces) <= u32::MAX as int,
                acc == total_face_verts_s(faces.take(i as int)),
            decreases self.faces_vert@.len() - i,
        {
            let n: usize = self.faces_vert[i].len();
            proof {
                assert(faces[i as int] == idx_elems(self.faces_vert@[i as int]));
                assert(face_wf(faces[i as int]));
                lemma_total_snoc(faces, i as int);
                lemma_total_prefix_le(faces, i as int + 1);
                lemma_total_nonneg(faces.take(i as int));
            }
            acc = acc + n as u32;
            i += 1;
        }
        proof {
            assert(faces.take(self.faces_vert@.len() as int) =~= faces);
        }
        acc
    }
}

} // verus!
