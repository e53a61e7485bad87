//! The fixed quad geometry the renderer draws.
//!
//! One textured quad: four vertices and six indices forming two triangles
//! that share the quad's diagonal. The geometry is built once at startup
//! and never changes. Coordinates are exact integers: a position component
//! is given in half-units of clip space (a value of 1 stands for 0.5), a
//! texture coordinate in whole texture units (0 or 1). The unverified shell
//! converts them to the floating-point layout the GPU expects.

use vstd::prelude::*;

verus! {

/// One vertex of the quad: a clip-space position in half-units and a
/// texture coordinate in whole units.
#[derive(Clone, Copy, Debug, PartialEq, Eq, Structural)]
pub struct Vertex {
    /// Horizontal position, in half-units of clip space.
    pub pos_x: i32,
    /// Vertical position, in half-units of clip space.
    pub pos_y: i32,
    /// Horizontal texture coordinate, in texture units.
    pub tex_u: i32,
    /// Vertical texture coordinate, in texture units.
    pub tex_v: i32,
}

/// An immutable vertex list plus an immutable 16-bit index list, ready to
/// be uploaded as one drawable buffer.
#[derive(Debug)]
pub struct Geometry {
    pub vertices: Vec<Vertex>,
    pub indices: Vec<u16>,
}

/// The four corners of the unit quad, with the texture's top row mapped to
/// the quad's top edge.
pub open spec fn quad_vertices() -> Seq<Vertex> {
    seq![
        Vertex { pos_x: -1i32, pos_y: -1i32, tex_u: 0i32, tex_v: 1i32 },
        Vertex { pos_x: -1i32, pos_y: 1i32, tex_u: 0i32, tex_v: 0i32 },
        Vertex { pos_x: 1i32, pos_y: -1i32, tex_u: 1i32, tex_v: 1i32 },
        Vertex { pos_x: 1i32, pos_y: 1i32, tex_u: 1i32, tex_v: 0i32 },
    ]
}

/// The index list of the quad: two triangles, (0, 1, 2) and (1, 2, 3),
/// sharing the diagonal between vertices 1 and 2.
pub open spec fn quad_indices() -> Seq<u16> {
    seq![0u16, 1u16, 2u16, 1u16, 2u16, 3u16]
}

/// Builds the quad geometry. The result is pinned down exactly: every run
/// yields the same four vertices and the same six indices.
pub fn quad_geometry() -> (g: Geometry)
    ensures
        g.vertices@ == quad_vertices(),
        g.indices@ == quad_indices(),
{
    let mut vertices: Vec<Vertex> = Vec::new();
    vertices.push(Vertex { pos_x: -1, pos_y: -1, tex_u: 0, tex_v: 1 });
    vertices.push(Vertex { pos_x: -1, pos_y: 1, tex_u: 0, tex_v: 0 });
    vertices.push(Vertex { pos_x: 1, pos_y: -1, tex_u: 1, tex_v: 1 });
    vertices.push(Vertex { pos_x: 1, pos_y: 1, tex_u: 1, tex_v: 0 });
    let mut indices: Vec<u16> = Vec::new();
    indices.push(0);
    indices.push(1);
    indices.push(2);
    indices.push(1);
    indices.push(2);
    indices.push(3);
    proof {
        assert(vertices@ =~= quad_vertices());
        assert(indices@ =~= quad_indices());
    }
    Geometry { vertices, indices }
}

/// Building the geometry is deterministic and idempotent: two geometries
/// that meet the builder's contract are equal in every vertex and index,
/// hold exactly four vertices, and describe the same topology of two
/// triangles sharing the quad's diagonal.
pub proof fn lemma_quad_geometry_deterministic(g1: Geometry, g2: Geometry)
    requires
        g1.vertices@ == quad_vertices(),
        g1.indices@ == quad_indices(),
        g2.vertices@ == quad_vertices(),
        g2.indices@ == quad_indices(),
    ensures
        g1.vertices@ == g2.vertices@,
        g1.indices@ == g2.indices@,
        g1.vertices@.len() == 4,
        g1.indices@.len() == 6,
{
}

} // verus!
