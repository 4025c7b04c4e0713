//! Geometries from triangle meshes that were authored elsewhere.
//!
//! A mesh file is read by the caller. What it holds comes here as plain
//! lists: three values for each position, and, if the file has them, three
//! for each normal and two for each texture coordinate.

use crate::error::ParseError;
use crate::object::GeometryView;
use crate::object::ObjectGeometry;
use crate::scalar::Scalar;
use crate::scalar::ONE;
use crate::scalar::ZERO;
use crate::vertex::Vertex;
use vstd::prelude::*;

verus! {

/// One model of a mesh file, with one index for all attributes of a corner.
#[derive(Debug)]
pub struct Mesh {
    /// Three values for each corner.
    pub positions: Vec<Scalar>,
    /// Three values for each corner, or none at all.
    pub normals: Vec<Scalar>,
    /// Two values for each corner, or none at all.
    pub texcoords: Vec<Scalar>,
    /// Three corners for each triangle.
    pub indices: Vec<u32>,
}

/// A mesh as a mathematical value.
pub struct MeshView {
    pub positions: Seq<Scalar>,
    pub normals: Seq<Scalar>,
    pub texcoords: Seq<Scalar>,
    pub indices: Seq<u32>,
}

impl View for Mesh {
    type V = MeshView;

    open spec fn view(&self) -> MeshView {
        MeshView {
            positions: self.positions@,
            normals: self.normals@,
            texcoords: self.texcoords@,
            indices: self.indices@,
        }
    }
}

/// The views of a list of meshes.
pub open spec fn meshes_of(v: Seq<Mesh>) -> Seq<MeshView> {
    v.map_values(|m: Mesh| m@)
}

/// The number of corners of a mesh: one for each full group of three
/// position values.
pub open spec fn corners(m: MeshView) -> nat {
    m.positions.len() / 3
}

/// Whether a mesh that has normals has one for each corner, and one that
/// has texture coordinates has them for each corner.
pub open spec fn complete(m: MeshView) -> bool {
    &&& m.normals.len() == 0 || m.normals.len() >= 3 * corners(m)
    &&& m.texcoords.len() == 0 || m.texcoords.len() >= 2 * corners(m)
}

/// The vertex of corner `i`: white, with the normal (0, 1, 0) in a mesh
/// without normals and the texture coordinates (0, 0) in one without them.
pub open spec fn mesh_vertex(m: MeshView, i: int) -> Vertex {
    let zero = Scalar { bits: ZERO };
    let one = Scalar { bits: ONE };
    Vertex {
        position: [m.positions[3 * i], m.positions[3 * i + 1], m.positions[3 * i + 2]],
        color: [one, one, one],
        normal: if m.normals.len() == 0 {
            [zero, one, zero]
        } else {
            [m.normals[3 * i], m.normals[3 * i + 1], m.normals[3 * i + 2]]
        },
        uv: if m.texcoords.len() == 0 {
            [zero, zero]
        } else {
            [m.texcoords[2 * i], m.texcoords[2 * i + 1]]
        },
    }
}

/// A 32-bit index as a 16-bit one: its low sixteen bits. An index below
/// 65536 keeps its value.
pub open spec fn narrowed(i: u32) -> u16 {
    (i % 0x1_0000) as u16
}

/// The geometry of a mesh under a name: a vertex for each corner, and the
/// mesh's indices, narrowed.
pub open spec fn mesh_geometry(name: Seq<char>, m: MeshView) -> GeometryView {
    GeometryView {
        name,
        vertices: Seq::new(corners(m), |i: int| mesh_vertex(m, i)),
        indices: Seq::new(m.indices.len(), |k: int| narrowed(m.indices[k])),
    }
}

impl Mesh {
    /// Whether the mesh, if it has normals or texture coordinates, has them
    /// for each corner.
    pub fn is_complete(&self) -> (r: bool)
        ensures
            r == complete(self@),
    {
        let count = self.positions.len() / 3;
        (self.normals.len() == 0 || self.normals.len() / 3 >= count) && (self.texcoords.len() == 0
            || self.texcoords.len() / 2 >= count)
    }
}

impl ObjectGeometry {
    /// The geometry of a mesh. Indices are narrowed to sixteen bits by
    /// dropping their high bits, so a mesh of more than 65536 corners comes
    /// out with indices that wrap round.
    pub fn from_mesh(name: String, mesh: &Mesh) -> (g: ObjectGeometry)
        requires
            complete(mesh@),
        ensures
            g@ == mesh_geometry(name@, mesh@),
    {
        let count = mesh.positions.len() / 3;
        let zero = Scalar { bits: ZERO };
        let one = Scalar { bits: ONE };
        let mut vertices: Vec<Vertex> = Vec::new();
        let mut i: usize = 0;
        while i < count
            invariant
                i <= count,
                count == corners(mesh@),
                3 * count <= mesh.positions.len(),
                complete(mesh@),
                zero == (Scalar { bits: ZERO }),
                one == (Scalar { bits: ONE }),
                vertices@.len() == i,
                forall|k: int| 0 <= k < i ==> #[trigger] vertices@[k] == mesh_vertex(mesh@, k),
            decreases count - i,
        {
            assert(3 * i + 2 < mesh.positions.len());
            let position = [
                mesh.positions[i * 3],
                mesh.positions[i * 3 + 1],
                mesh.positions[i * 3 + 2],
            ];
            let normal = if mesh.normals.len() == 0 {
                [zero, one, zero]
            } else {
                [mesh.normals[i * 3], mesh.normals[i * 3 + 1], mesh.normals[i * 3 + 2]]
            };
            let uv = if mesh.texcoords.len() == 0 {
                [zero, zero]
            } else {
                [mesh.texcoords[i * 2], mesh.texcoords[i * 2 + 1]]
            };
            vertices.push(Vertex { position, color: [one, one, one], normal, uv });
            i += 1;
        }
        let mut indices: Vec<u16> = Vec::new();
        let mut k: usize = 0;
        while k < mesh.indices.len()
            invariant
                k <= mesh.indices.len(),
                indices@.len() == k,
                forall|j: int| 0 <= j < k ==> #[trigger] indices@[j] == narrowed(mesh.indices@[j]),
            decreases mesh.indices.len() - k,
        {
            indices.push((mesh.indices[k] % 0x1_0000) as u16);
            k += 1;
        }
        proof {
            assert(vertices@ == mesh_geometry(name@, mesh@).vertices);
            assert(indices@ == mesh_geometry(name@, mesh@).indices);
        }
        ObjectGeometry { name, vertices, indices }
    }

    /// The geometry of the first model of a mesh file, or
    /// [`ParseError::NoModels`] if the file holds none.
    pub fn from_models(name: String, models: &Vec<Mesh>) -> (r: Result<ObjectGeometry, ParseError>)
        requires
            models.len() > 0 ==> complete(models[0]@),
        ensures
            models.len() == 0 ==> r is Err && r->Err_0 == ParseError::NoModels,
            models.len() > 0 ==> r is Ok && r->Ok_0@ == mesh_geometry(name@, models[0]@),
    {
        if models.len() == 0 {
            return Err(ParseError::NoModels);
        }
        Ok(Self::from_mesh(name, &models[0]))
    }
}

} // verus!
