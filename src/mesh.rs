//! Conversion of the GUI's painted triangle lists into render meshes.
//!
//! Coordinates are carried as the bit patterns of 32-bit IEEE 754 values:
//! the conversion moves them without arithmetic, and the bit pattern of
//! positive zero is all zeros.
use vstd::prelude::*;

verus! {

/// The bit pattern of the 32-bit floating-point value positive zero.
pub const ZERO_BITS: u32 = 0;

/// One vertex of a painted triangle list.
#[derive(Clone, Copy, Debug, PartialEq, Eq)]
pub struct Vertex {
    /// Screen position in points, x then y, as bit patterns.
    pub pos: (u32, u32),
    /// Texel coordinates in the font texture.
    pub uv: (u16, u16),
    /// Premultiplied sRGBA colour.
    pub color: (u8, u8, u8, u8),
}

/// A painted triangle list: vertices, and indices into them, three per
/// triangle.
#[derive(Clone, Debug)]
pub struct Triangles {
    pub indices: Vec<u32>,
    pub vertices: Vec<Vertex>,
}

/// How a mesh's indices group its vertices into primitives.
#[derive(Clone, Copy, Debug, PartialEq, Eq, Structural)]
pub enum PrimitiveTopology {
    PointList,
    LineList,
    LineStrip,
    TriangleList,
    TriangleStrip,
}

/// A render mesh: a topology, per-vertex positions (x, y, z as bit patterns)
/// and texture coordinates, and optional indices.
#[derive(Clone, Debug)]
pub struct MeshData {
    pub primitive_topology: PrimitiveTopology,
    pub positions: Vec<(u32, u32, u32)>,
    pub uvs: Vec<(u16, u16)>,
    pub indices: Option<Vec<u32>>,
}

/// The mesh position of a vertex: its screen position, at depth zero.
pub open spec fn position_of(v: Vertex) -> (u32, u32, u32) {
    (v.pos.0, v.pos.1, ZERO_BITS)
}

/// `m` is the triangle-list mesh of `t`: one position and one texture
/// coordinate per vertex, in order, and the same indices.
pub open spec fn is_mesh_of(m: MeshData, t: Triangles) -> bool {
    &&& m.primitive_topology == PrimitiveTopology::TriangleList
    &&& m.positions@.len() == t.vertices@.len()
    &&& m.uvs@.len() == t.vertices@.len()
    &&& forall|i: int|
        0 <= i < t.vertices@.len() ==> #[trigger] m.positions@[i] == position_of(t.vertices@[i])
    &&& forall|i: int| 0 <= i < t.vertices@.len() ==> #[trigger] m.uvs@[i] == t.vertices@[i].uv
    &&& m.indices matches Some(ix) && ix@ == t.indices@
}

/// Turns a painted triangle list into a triangle-list mesh.
pub fn convert_triangles_to_mesh(triangles: Triangles) -> (r: MeshData)
    ensures
        is_mesh_of(r, triangles),
{
    let mut positions: Vec<(u32, u32, u32)> = Vec::new();
    let mut uvs: Vec<(u16, u16)> = Vec::new();
    let n = triangles.vertices.len();
    let mut i: usize = 0;
    while i < n
        invariant
            n == triangles.vertices@.len(),
            i <= n,
            positions@.len() == i,
            uvs@.len() == i,
            forall|j: int| 0 <= j < i ==> #[trigger] positions@[j] == position_of(triangles.vertices@[j]),
            forall|j: int| 0 <= j < i ==> #[trigger] uvs@[j] == triangles.vertices@[j].uv,
        decreases n - i,
    {
        let vert = triangles.vertices[i];
        positions.push((vert.pos.0, vert.pos.1, ZERO_BITS));
        uvs.push(vert.uv);
        i = i + 1;
    }
    MeshData {
        primitive_topology: PrimitiveTopology::TriangleList,
        positions,
        uvs,
        indices: Some(triangles.indices),
    }
}

/// Turns each painted triangle list of a frame into its mesh, in order.
pub fn convert_paint_jobs(jobs: Vec<Triangles>) -> (r: Vec<MeshData>)
    ensures
        r@.len() == jobs@.len(),
        forall|i: int| 0 <= i < jobs@.len() ==> is_mesh_of(#[trigger] r@[i], jobs@[i]),
{
    let mut meshes: Vec<MeshData> = Vec::new();
    let mut rest = jobs;
    let ghost all = rest@;
    while rest.len() > 0
        invariant
            meshes@.len() + rest@.len() == all.len(),
            rest@ == all.subrange(meshes@.len() as int, all.len() as int),
            forall|i: int| 0 <= i < meshes@.len() ==> is_mesh_of(#[trigger] meshes@[i], all[i]),
        decreases rest@.len(),
    {
        let job = rest.remove(0);
        let mesh = convert_triangles_to_mesh(job);
        meshes.push(mesh);
    }
    meshes
}

} // verus!
