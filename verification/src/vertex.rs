//! Vertices and their layout in a vertex buffer.

use crate::scalar::Scalar;
use vstd::prelude::*;

verus! {

/// The number of bytes of one binary32 value.
pub const SCALAR_BYTES: u64 = 4;

/// The number of bytes from one vertex to the next in a vertex buffer.
pub const VERTEX_STRIDE: u64 = 44;

/// One corner of a mesh. In a vertex buffer its eleven values follow one
/// another in the order of the fields.
#[derive(Clone, Copy, Debug, PartialEq, Eq)]
pub struct Vertex {
    pub position: [Scalar; 3],
    pub color: [Scalar; 3],
    pub normal: [Scalar; 3],
    pub uv: [Scalar; 2],
}

/// One attribute of a vertex as a shader sees it.
#[derive(Clone, Copy, Debug, PartialEq, Eq, Structural)]
pub struct VertexAttribute {
    /// Where the attribute starts, in bytes from the start of the vertex.
    pub offset: u64,
    /// The location under which the vertex stage reads it.
    pub shader_location: u32,
    /// How many binary32 values it holds.
    pub components: u32,
}

/// How vertices lie in a vertex buffer: one after the other, each attribute
/// at its offset.
#[derive(Debug)]
pub struct VertexLayout {
    pub array_stride: u64,
    pub attributes: Vec<VertexAttribute>,
}

/// The attributes of a vertex: position, colour, normal and texture
/// coordinates at locations 0 to 3, packed without gaps.
pub open spec fn vertex_attributes() -> Seq<VertexAttribute> {
    seq![
        VertexAttribute { offset: 0, shader_location: 0, components: 3 },
        VertexAttribute { offset: 12, shader_location: 1, components: 3 },
        VertexAttribute { offset: 24, shader_location: 2, components: 3 },
        VertexAttribute { offset: 36, shader_location: 3, components: 2 },
    ]
}

/// Whether the attributes follow one another without gap or overlap from
/// offset 0, at locations counted from 0, and fill `stride` bytes.
pub open spec fn packed(attributes: Seq<VertexAttribute>, stride: int) -> bool
    decreases attributes.len(),
{
    if attributes.len() == 0 {
        stride == 0
    } else {
        let last = attributes.last();
        &&& last.shader_location == attributes.len() - 1
        &&& last.offset + SCALAR_BYTES * last.components == stride
        &&& packed(attributes.drop_last(), last.offset as int)
    }
}

impl Vertex {
    /// The layout of a vertex buffer of this vertex type.
    pub fn desc() -> (layout: VertexLayout)
        ensures
            layout.array_stride == VERTEX_STRIDE,
            layout.attributes@ == vertex_attributes(),
            packed(layout.attributes@, layout.array_stride as int),
    {
        let mut attributes: Vec<VertexAttribute> = Vec::new();
        attributes.push(VertexAttribute { offset: 0, shader_location: 0, components: 3 });
        attributes.push(VertexAttribute { offset: 12, shader_location: 1, components: 3 });
        attributes.push(VertexAttribute { offset: 24, shader_location: 2, components: 3 });
        attributes.push(VertexAttribute { offset: 36, shader_location: 3, components: 2 });
        proof {
            lemma_vertex_layout_packed();
        }
        VertexLayout { array_stride: VERTEX_STRIDE, attributes }
    }
}

/// The attributes of a vertex fill its stride without gap or overlap.
pub proof fn lemma_vertex_layout_packed()
    ensures
        packed(vertex_attributes(), VERTEX_STRIDE as int),
{
    let a = vertex_attributes();
    let a3 = a.drop_last();
    let a2 = a3.drop_last();
    let a1 = a2.drop_last();
    let a0 = a1.drop_last();
    assert(a0.len() == 0);
    assert(packed(a0, 0));
    assert(packed(a1, 12));
    assert(packed(a2, 24));
    assert(packed(a3, 36));
}

} // verus!
