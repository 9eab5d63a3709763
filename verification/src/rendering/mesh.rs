//! Meshes: assembling vertices from a model's primitives, and how the vertex shader reads them.
//!
//! Vertex attributes are 32-bit floats that this library only moves, never computes with; they
//! are held by their bit patterns (`f32::to_bits`).
use vstd::prelude::*;

use crate::rendering::vulkan::{FORMAT_R32G32B32_SFLOAT, FORMAT_R32G32_SFLOAT, VERTEX_INPUT_RATE_VERTEX};

verus! {

/// The bit pattern of the float `1.0`.
pub const ONE_BITS: u32 = 0x3f80_0000;

/// One vertex: position, colour, normal and texture coordinate, as float bit patterns, laid
/// out as in the vertex buffer.
#[derive(Clone, Copy, Debug)]
pub struct Vertex {
    pub pos: [u32; 3],
    pub color: [u32; 3],
    pub normal: [u32; 3],
    pub uv: [u32; 2],
}

/// The attribute streams of one primitive of a model. Indices are absent when the primitive has
/// none.
pub struct PrimitiveData {
    pub indices: Option<Vec<u32>>,
    pub positions: Vec<[u32; 3]>,
    pub normals: Vec<[u32; 3]>,
    pub uvs: Vec<[u32; 2]>,
}

/// A mesh: the index list and the vertices it indexes.
pub struct Mesh {
    pub indices: Vec<u32>,
    pub vertices: Vec<Vertex>,
}

/// The streams of the primitive have one entry per vertex.
pub open spec fn streams_match(p: PrimitiveData) -> bool {
    p.positions@.len() == p.normals@.len() && p.positions@.len() == p.uvs@.len()
}

/// The vertex made of entry `i` of the streams of `p`, coloured white.
pub open spec fn vertex_at(p: PrimitiveData, i: int) -> Vertex {
    Vertex { pos: p.positions@[i], color: [ONE_BITS, ONE_BITS, ONE_BITS], normal: p.normals@[i], uv: p.uvs@[i] }
}

/// The vertices of one primitive, in stream order.
pub open spec fn primitive_vertices(p: PrimitiveData) -> Seq<Vertex> {
    Seq::new(p.positions@.len(), |i: int| vertex_at(p, i))
}

/// The vertices of all primitives, one primitive after the other.
pub open spec fn all_vertices(ps: Seq<PrimitiveData>) -> Seq<Vertex>
    decreases ps.len(),
{
    if ps.len() == 0 {
        seq![]
    } else {
        all_vertices(ps.drop_last()) + primitive_vertices(ps.last())
    }
}

/// The index list of a mesh: that of the last primitive, empty when it has none or when there
/// are no primitives (each primitive's indices replace those of the one before).
pub open spec fn mesh_indices(ps: Seq<PrimitiveData>) -> Seq<u32> {
    if ps.len() == 0 {
        seq![]
    } else {
        match ps.last().indices {
            Some(v) => v@,
            None => seq![],
        }
    }
}

impl Mesh {
    /// Assembles a mesh from a model's primitives: every primitive's vertices, in order, and the
    /// last primitive's indices.
    pub fn from_primitives(primitives: Vec<PrimitiveData>) -> (mesh: Mesh)
        requires
            forall|k: int| 0 <= k < primitives@.len() ==> streams_match(#[trigger] primitives@[k]),
        ensures
            mesh.vertices@ == all_vertices(primitives@),
            mesh.indices@ == mesh_indices(primitives@),
            mesh.vertices@.len() == primitive_lengths(primitives@),
            forall|p: int, k: int|
                0 <= p < primitives@.len() && 0 <= k < primitives@[p].positions@.len() ==> mesh.vertices@[primitive_lengths(
                    primitives@.take(p),
                ) + k] == (Vertex {
                    pos: #[trigger] primitives@[p].positions@[k],
                    color: [ONE_BITS, ONE_BITS, ONE_BITS],
                    normal: primitives@[p].normals@[k],
                    uv: primitives@[p].uvs@[k],
                }),
    {
        let ghost ps = primitives@;
        let mut vertices: Vec<Vertex> = Vec::new();
        let mut i: usize = 0;
        while i < primitives.len()
            invariant
                i <= ps.len(),
                primitives@ == ps,
                forall|k: int| 0 <= k < ps.len() ==> streams_match(#[trigger] ps[k]),
                vertices@ == all_vertices(ps.take(i as int)),
            decreases ps.len() - i,
        {
            let p = &primitives[i];
            let ghost before = vertices@;
            let mut j: usize = 0;
            while j < p.positions.len()
                invariant
                    j <= p.positions@.len(),
                    streams_match(*p),
                    vertices@ == before + primitive_vertices(*p).take(j as int),
                decreases p.positions@.len() - j,
            {
                vertices.push(Vertex {
                    pos: p.positions[j],
                    color: [ONE_BITS, ONE_BITS, ONE_BITS],
                    normal: p.normals[j],
                    uv: p.uvs[j],
                });
                assert(primitive_vertices(*p).take(j + 1) =~= primitive_vertices(*p).take(j as int).push(vertex_at(*p, j as int)));
                j = j + 1;
            }
            assert(primitive_vertices(*p).take(j as int) =~= primitive_vertices(*p));
            assert(ps.take(i + 1).drop_last() =~= ps.take(i as int));
            assert(ps.take(i + 1).last() == ps[i as int]);
            i = i + 1;
        }
        assert(ps.take(ps.len() as int) =~= ps);
        proof {
            lemma_vertex_count(ps);
            assert forall|p: int, k: int|
                0 <= p < ps.len() && 0 <= k < ps[p].positions@.len() implies vertices@[primitive_lengths(ps.take(p)) + k]
                == (Vertex {
                    pos: #[trigger] ps[p].positions@[k],
                    color: [ONE_BITS, ONE_BITS, ONE_BITS],
                    normal: ps[p].normals@[k],
                    uv: ps[p].uvs@[k],
                }) by {
                lemma_vertex_from_streams(ps, p, k);
            }
        }
        let mut primitives = primitives;
        let indices = match primitives.pop() {
            Some(last) => match last.indices {
                Some(v) => v,
                None => Vec::new(),
            },
            None => Vec::new(),
        };
        Mesh { indices, vertices }
    }
}

/// The vertex buffer binding (`VkVertexInputBindingDescription`).
#[derive(Clone, Copy, Debug, PartialEq, Eq, Structural)]
pub struct VertexInputBinding {
    pub binding: u32,
    pub stride: u32,
    pub input_rate: i32,
}

/// A vertex attribute (`VkVertexInputAttributeDescription`).
#[derive(Clone, Copy, Debug, PartialEq, Eq, Structural)]
pub struct VertexInputAttribute {
    pub location: u32,
    pub binding: u32,
    pub format: i32,
    pub offset: u32,
}

/// The size of a vertex in the buffer: eleven 4-byte floats.
pub const VERTEX_STRIDE: u32 = 44;

impl Vertex {
    /// Vertices are read per vertex from binding 0, one stride apart.
    pub fn get_binding_description() -> (b: VertexInputBinding)
        ensures
            b == (VertexInputBinding { binding: 0, stride: VERTEX_STRIDE, input_rate: VERTEX_INPUT_RATE_VERTEX }),
    {
        VertexInputBinding { binding: 0, stride: VERTEX_STRIDE, input_rate: VERTEX_INPUT_RATE_VERTEX }
    }

    /// Position, colour and normal (three floats each) at locations 0 to 2, and the texture
    /// coordinate (two floats) at location 3, at their offsets in the vertex.
    pub fn get_attribute_descriptions() -> (a: [VertexInputAttribute; 4])
        ensures
            a@ == seq![
                VertexInputAttribute { location: 0, binding: 0, format: FORMAT_R32G32B32_SFLOAT, offset: 0 },
                VertexInputAttribute { location: 1, binding: 0, format: FORMAT_R32G32B32_SFLOAT, offset: 12 },
                VertexInputAttribute { location: 2, binding: 0, format: FORMAT_R32G32B32_SFLOAT, offset: 24 },
                VertexInputAttribute { location: 3, binding: 0, format: FORMAT_R32G32_SFLOAT, offset: 36 },
            ],
    {
        let a = [
            VertexInputAttribute { location: 0, binding: 0, format: FORMAT_R32G32B32_SFLOAT, offset: 0 },
            VertexInputAttribute { location: 1, binding: 0, format: FORMAT_R32G32B32_SFLOAT, offset: 12 },
            VertexInputAttribute { location: 2, binding: 0, format: FORMAT_R32G32B32_SFLOAT, offset: 24 },
            VertexInputAttribute { location: 3, binding: 0, format: FORMAT_R32G32_SFLOAT, offset: 36 },
        ];
        assert(a@ =~= seq![
            VertexInputAttribute { location: 0, binding: 0, format: FORMAT_R32G32B32_SFLOAT, offset: 0 },
            VertexInputAttribute { location: 1, binding: 0, format: FORMAT_R32G32B32_SFLOAT, offset: 12 },
            VertexInputAttribute { location: 2, binding: 0, format: FORMAT_R32G32B32_SFLOAT, offset: 24 },
            VertexInputAttribute { location: 3, binding: 0, format: FORMAT_R32G32_SFLOAT, offset: 36 },
        ]);
        a
    }
}

/// A mesh holds as many vertices as its primitives hold stream entries.
pub proof fn lemma_vertex_count(ps: Seq<PrimitiveData>)
    ensures
        all_vertices(ps).len() == primitive_lengths(ps),
    decreases ps.len(),
{
    if ps.len() > 0 {
        lemma_vertex_count(ps.drop_last());
    }
}

/// Entry `k` of the streams of primitive `p` becomes one vertex, placed after the vertices of
/// the primitives before it: its position, normal and texture coordinate are entry `k` of that
/// primitive's position, normal and texture coordinate streams, and it is white.
pub proof fn lemma_vertex_from_streams(ps: Seq<PrimitiveData>, p: int, k: int)
    requires
        0 <= p < ps.len(),
        0 <= k < ps[p].positions@.len(),
    ensures
        primitive_lengths(ps.take(p)) + k < all_vertices(ps).len(),
        all_vertices(ps)[primitive_lengths(ps.take(p)) + k] == (Vertex {
            pos: ps[p].positions@[k],
            color: [ONE_BITS, ONE_BITS, ONE_BITS],
            normal: ps[p].normals@[k],
            uv: ps[p].uvs@[k],
        }),
    decreases ps.len(),
{
    let d = ps.drop_last();
    lemma_vertex_count(ps);
    lemma_vertex_count(d);
    if p == ps.len() - 1 {
        assert(ps.take(p) =~= d);
    } else {
        lemma_vertex_from_streams(d, p, k);
        assert(d.take(p) =~= ps.take(p));
    }
}

/// The number of stream entries of all primitives together.
pub open spec fn primitive_lengths(ps: Seq<PrimitiveData>) -> nat
    decreases ps.len(),
{
    if ps.len() == 0 {
        0
    } else {
        primitive_lengths(ps.drop_last()) + ps.last().positions@.len()
    }
}

} // verus!
