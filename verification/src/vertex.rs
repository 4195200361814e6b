//! Vertex assembly and the vertex-buffer layouts of the default pipeline.
//!
//! Geometry sources deliver flat component lists (positions three to a
//! vertex, texture coordinates two, normals three or none). The core
//! assembles them into interleaved vertices, applying the missing-normals
//! rule, and describes the byte layout the GPU reads them with.

use vstd::prelude::*;
use crate::error::RenderError;

verus! {

/// One interleaved model vertex: position, texture coordinates and normal,
/// each component an IEEE-754 single-precision bit pattern.
#[derive(Clone, Copy, Debug, PartialEq, Eq, Structural)]
pub struct ModelVertexBits {
    pub px: u32,
    pub py: u32,
    pub pz: u32,
    pub tu: u32,
    pub tv: u32,
    pub nx: u32,
    pub ny: u32,
    pub nz: u32,
}

/// Whether the component lists of a geometry source agree: positions come
/// three to a vertex, texture coordinates two to a vertex, and normals are
/// either absent or three to a vertex.
pub open spec fn components_consistent(
    positions: Seq<u32>,
    texcoords: Seq<u32>,
    normals: Seq<u32>,
) -> bool {
    &&& positions.len() % 3 == 0
    &&& texcoords.len() == 2 * (positions.len() / 3)
    &&& (normals.len() == 0 || normals.len() == positions.len())
}

/// The vertex at index `i` of an assembled mesh: the i-th triple of
/// positions, the i-th pair of texture coordinates, and the i-th triple of
/// normals, or a zero normal when the source carries none.
pub open spec fn assembled_vertex(
    positions: Seq<u32>,
    texcoords: Seq<u32>,
    normals: Seq<u32>,
    i: int,
) -> ModelVertexBits {
    ModelVertexBits {
        px: positions[3 * i],
        py: positions[3 * i + 1],
        pz: positions[3 * i + 2],
        tu: texcoords[2 * i],
        tv: texcoords[2 * i + 1],
        nx: if normals.len() == 0 {
            0u32
        } else {
            normals[3 * i]
        },
        ny: if normals.len() == 0 {
            0u32
        } else {
            normals[3 * i + 1]
        },
        nz: if normals.len() == 0 {
            0u32
        } else {
            normals[3 * i + 2]
        },
    }
}

/// The full vertex list a consistent source assembles into.
pub open spec fn assembled_vertices(
    positions: Seq<u32>,
    texcoords: Seq<u32>,
    normals: Seq<u32>,
) -> Seq<ModelVertexBits> {
    Seq::new(positions.len() / 3, |i: int| assembled_vertex(positions, texcoords, normals, i))
}

/// Interleaves the component lists of one mesh into vertices. A source whose
/// component counts disagree is rejected as a failed model load; a consistent
/// source assembles exactly, with a zero normal wherever the source carries
/// no normals at all.
pub fn build_vertices(positions: &Vec<u32>, texcoords: &Vec<u32>, normals: &Vec<u32>) -> (r: Result<
    Vec<ModelVertexBits>,
    RenderError,
>)
    ensures
        r is Ok <==> components_consistent(positions@, texcoords@, normals@),
        r matches Ok(v) ==> v@ == assembled_vertices(positions@, texcoords@, normals@),
        r matches Err(e) ==> e == RenderError::ModelLoadFailed,
{
    if positions.len() % 3 != 0 {
        return Err(RenderError::ModelLoadFailed);
    }
    let n: usize = positions.len() / 3;
    if texcoords.len() != 2 * n {
        return Err(RenderError::ModelLoadFailed);
    }
    if normals.len() != 0 && normals.len() != positions.len() {
        return Err(RenderError::ModelLoadFailed);
    }
    let has_normals: bool = normals.len() != 0;
    proof {
        assert(positions@.len() == 3 * n);
    }
    let mut out: Vec<ModelVertexBits> = Vec::new();
    let mut i: usize = 0;
    while i < n
        invariant
            i <= n,
            n == positions@.len() / 3,
            positions@.len() == 3 * n,
            3 * n <= usize::MAX,
            texcoords@.len() == 2 * n,
            components_consistent(positions@, texcoords@, normals@),
            has_normals == (normals@.len() != 0),
            out@.len() == i,
            forall|k: int|
                0 <= k < i ==> out@[k] == assembled_vertex(positions@, texcoords@, normals@, k),
        decreases n - i,
    {
        let v = ModelVertexBits {
            px: positions[3 * i],
            py: positions[3 * i + 1],
            pz: positions[3 * i + 2],
            tu: texcoords[2 * i],
            tv: texcoords[2 * i + 1],
            nx: if has_normals {
                normals[3 * i]
            } else {
                0
            },
            ny: if has_normals {
                normals[3 * i + 1]
            } else {
                0
            },
            nz: if has_normals {
                normals[3 * i + 2]
            } else {
                0
            },
        };
        out.push(v);
        i = i + 1;
    }
    proof {
        assert(out@ =~= assembled_vertices(positions@, texcoords@, normals@));
    }
    Ok(out)
}

/// The vertex formats the default pipeline uses.
#[derive(Clone, Copy, Debug, PartialEq, Eq, Structural)]
pub enum VertexFormatDesc {
    Float32x2,
    Float32x3,
    Float32x4,
}

/// Whether a buffer steps per vertex or per instance.
#[derive(Clone, Copy, Debug, PartialEq, Eq, Structural)]
pub enum VertexStepDesc {
    Vertex,
    Instance,
}

/// One attribute of a vertex-buffer layout: a byte offset into the stride, a
/// shader location, and a format.
#[derive(Clone, Copy, Debug, PartialEq, Eq, Structural)]
pub struct VertexAttributeDesc {
    pub offset: u64,
    pub shader_location: u32,
    pub format: VertexFormatDesc,
}

/// A vertex-buffer layout: a stride in bytes, a step mode, and the
/// attributes read out of each stride.
pub struct VertexLayoutDesc {
    pub array_stride: u64,
    pub step: VertexStepDesc,
    pub attributes: Vec<VertexAttributeDesc>,
}

/// The attribute list of the model-vertex layout: a position at offset 0,
/// texture coordinates after the three position components (12 bytes), and a
/// normal after the two texture components more (20 bytes), at shader
/// locations 0, 1 and 2.
pub open spec fn model_vertex_attributes() -> Seq<VertexAttributeDesc> {
    seq![
        (VertexAttributeDesc { offset: 0u64, shader_location: 0u32, format: VertexFormatDesc::Float32x3 }),
        (VertexAttributeDesc { offset: 12u64, shader_location: 1u32, format: VertexFormatDesc::Float32x2 }),
        (VertexAttributeDesc { offset: 20u64, shader_location: 2u32, format: VertexFormatDesc::Float32x3 }),
    ]
}

/// The layout of the model vertex buffer: eight 4-byte components to a
/// vertex, stepped per vertex.
pub fn model_vertex_layout() -> (r: VertexLayoutDesc)
    ensures
        r.array_stride == 32u64,
        r.step == VertexStepDesc::Vertex,
        r.attributes@ == model_vertex_attributes(),
{
    let mut attributes: Vec<VertexAttributeDesc> = Vec::new();
    attributes.push(
        VertexAttributeDesc { offset: 0, shader_location: 0, format: VertexFormatDesc::Float32x3 },
    );
    attributes.push(
        VertexAttributeDesc { offset: 12, shader_location: 1, format: VertexFormatDesc::Float32x2 },
    );
    attributes.push(
        VertexAttributeDesc { offset: 20, shader_location: 2, format: VertexFormatDesc::Float32x3 },
    );
    proof {
        assert(attributes@ =~= model_vertex_attributes());
    }
    VertexLayoutDesc { array_stride: 32, step: VertexStepDesc::Vertex, attributes }
}

/// The attribute list of the instance-transform layout: a 4x4 matrix read as
/// four 4-component columns, 16 bytes apart, at shader locations 5 through 8
/// so as not to collide with the vertex attributes.
pub open spec fn instance_transform_attributes() -> Seq<VertexAttributeDesc> {
    seq![
        (VertexAttributeDesc { offset: 0u64, shader_location: 5u32, format: VertexFormatDesc::Float32x4 }),
        (VertexAttributeDesc { offset: 16u64, shader_location: 6u32, format: VertexFormatDesc::Float32x4 }),
        (VertexAttributeDesc { offset: 32u64, shader_location: 7u32, format: VertexFormatDesc::Float32x4 }),
        (VertexAttributeDesc { offset: 48u64, shader_location: 8u32, format: VertexFormatDesc::Float32x4 }),
    ]
}

/// The layout of the instance buffer: one 64-byte raw transform to an
/// instance, stepped per instance.
pub fn instance_transform_layout() -> (r: VertexLayoutDesc)
    ensures
        r.array_stride == 64u64,
        r.step == VertexStepDesc::Instance,
        r.attributes@ == instance_transform_attributes(),
{
    let mut attributes: Vec<VertexAttributeDesc> = Vec::new();
    attributes.push(
        VertexAttributeDesc { offset: 0, shader_location: 5, format: VertexFormatDesc::Float32x4 },
    );
    attributes.push(
        VertexAttributeDesc { offset: 16, shader_location: 6, format: VertexFormatDesc::Float32x4 },
    );
    attributes.push(
        VertexAttributeDesc { offset: 32, shader_location: 7, format: VertexFormatDesc::Float32x4 },
    );
    attributes.push(
        VertexAttributeDesc { offset: 48, shader_location: 8, format: VertexFormatDesc::Float32x4 },
    );
    proof {
        assert(attributes@ =~= instance_transform_attributes());
    }
    VertexLayoutDesc { array_stride: 64, step: VertexStepDesc::Instance, attributes }
}

} // verus!
