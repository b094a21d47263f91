//! The shared mesh: one unit quad, drawn once per instance.
//!
//! Vertex coordinates are stored as the device reads them, as single-precision
//! bit patterns. The quad's corners are whole numbers, so what the mesh covers
//! is stated over integers.

use crate::float_bits::{ONE, ZERO};
use crate::layout::{InputStepMode, VertexBufferLayout, VertexFormat};
use crate::memory::{
    halves_as_bytes, halves_image, words_as_bytes, words_image, BufferData, BufferUsage,
};
use vstd::endian::endianness;
use vstd::prelude::*;

verus! {

/// One corner of the mesh: a position in the quad's local space, each
/// coordinate a single-precision bit pattern.
#[derive(Clone, Copy, Debug, PartialEq, Eq)]
pub struct Vertex {
    pub vertex_position: (u32, u32),
}

impl Vertex {
    /// The vertex at `(x, y)`.
    pub fn new(x: u32, y: u32) -> (vertex: Vertex)
        ensures
            vertex.vertex_position == (x, y),
    {
        Vertex { vertex_position: (x, y) }
    }

    /// Word `k` of the record, in field order.
    pub open spec fn word(self, k: int) -> u32 {
        if k == 0 {
            self.vertex_position.0
        } else {
            self.vertex_position.1
        }
    }
}

/// The formats of a vertex record's fields, in order.
pub open spec fn vertex_formats() -> Seq<VertexFormat> {
    seq![VertexFormat::Float2]
}

/// The words of a run of vertex records, record after record.
pub open spec fn vertex_words(vertices: Seq<Vertex>) -> Seq<u32> {
    Seq::new(2 * vertices.len(), |i: int| vertices[i / 2].word(i % 2))
}

/// Corner `i` of the unit square, counter-clockwise from the origin.
pub open spec fn corner(i: int) -> (int, int) {
    if i == 0 {
        (0, 0)
    } else if i == 1 {
        (1, 0)
    } else if i == 2 {
        (1, 1)
    } else {
        (0, 1)
    }
}

/// The bit pattern that stores the corner coordinate `c`, which is 0 or 1.
pub open spec fn coordinate_word(c: int) -> u32 {
    if c == 0 {
        ZERO
    } else {
        ONE
    }
}

/// The four vertices of the unit quad.
pub open spec fn quad_vertices() -> Seq<Vertex> {
    Seq::new(
        4,
        |i: int|
            Vertex { vertex_position: (coordinate_word(corner(i).0), coordinate_word(corner(i).1)) },
    )
}

/// The six indices of the unit quad: two triangles that share the diagonal
/// from corner 0 to corner 2.
pub open spec fn quad_indices() -> Seq<u16> {
    seq![0u16, 1u16, 2u16, 0u16, 2u16, 3u16]
}

/// Corner `k` (0, 1 or 2) of triangle `t` (0 or 1) of the unit quad.
pub open spec fn triangle_corner(t: int, k: int) -> (int, int) {
    corner(quad_indices()[3 * t + k] as int)
}

/// Which side of the directed line from `(ax, ay)` to `(bx, by)` the point
/// `(x / scale, y / scale)` lies on: positive to the left, zero on the line,
/// negative to the right. The value is the cross product of the line's
/// direction with the point's offset from `(ax, ay)`, times `scale`.
pub open spec fn side(ax: int, ay: int, bx: int, by: int, x: int, y: int, scale: int) -> int {
    (bx - ax) * (y - ay * scale) - (by - ay) * (x - ax * scale)
}

/// `side` for the edge of triangle `t` that leaves its corner `k`.
pub open spec fn edge_side(t: int, k: int, x: int, y: int, scale: int) -> int {
    let from = triangle_corner(t, k);
    let to = triangle_corner(t, (k + 1) % 3);
    side(from.0, from.1, to.0, to.1, x, y, scale)
}

/// Whether the point `(x / scale, y / scale)` lies in triangle `t` of the
/// unit quad, edges included.
pub open spec fn triangle_covers(t: int, x: int, y: int, scale: int) -> bool {
    &&& edge_side(t, 0, x, y, scale) >= 0
    &&& edge_side(t, 1, x, y, scale) >= 0
    &&& edge_side(t, 2, x, y, scale) >= 0
}

/// Whether the point `(x / scale, y / scale)` lies strictly inside triangle
/// `t` of the unit quad.
pub open spec fn triangle_interior(t: int, x: int, y: int, scale: int) -> bool {
    &&& edge_side(t, 0, x, y, scale) > 0
    &&& edge_side(t, 1, x, y, scale) > 0
    &&& edge_side(t, 2, x, y, scale) > 0
}

/// Twice the signed area of triangle `t` of the unit quad; positive when its
/// corners run counter-clockwise.
pub open spec fn triangle_doubled_area(t: int) -> int {
    edge_side(t, 0, triangle_corner(t, 2).0, triangle_corner(t, 2).1, 1)
}

/// Whether the point `(x / scale, y / scale)` lies in the unit square, edges
/// included.
pub open spec fn in_unit_square(x: int, y: int, scale: int) -> bool {
    0 <= x <= scale && 0 <= y <= scale
}

/// The corners that the two triangles of the unit quad name.
pub proof fn lemma_triangle_corners()
    ensures
        triangle_corner(0, 0) == (0int, 0int),
        triangle_corner(0, 1) == (1int, 0int),
        triangle_corner(0, 2) == (1int, 1int),
        triangle_corner(1, 0) == (0int, 0int),
        triangle_corner(1, 1) == (1int, 1int),
        triangle_corner(1, 2) == (0int, 1int),
{
}

/// The two triangles of the unit quad tile the unit square: a point with
/// rational coordinates lies in the square exactly when one of the triangles
/// covers it, no point lies strictly inside both, and a point that both cover
/// lies on their shared diagonal. Both triangles run counter-clockwise and
/// their areas add up to the area of the square.
pub proof fn lemma_quad_tiles_unit_square(x: int, y: int, scale: int)
    requires
        scale > 0,
    ensures
        in_unit_square(x, y, scale) <==> triangle_covers(0, x, y, scale) || triangle_covers(
            1,
            x,
            y,
            scale,
        ),
        !(triangle_interior(0, x, y, scale) && triangle_interior(1, x, y, scale)),
        triangle_covers(0, x, y, scale) && triangle_covers(1, x, y, scale) ==> x == y,
        triangle_doubled_area(0) == 1,
        triangle_doubled_area(1) == 1,
        triangle_doubled_area(0) + triangle_doubled_area(1) == 2,
{
    lemma_triangle_corners();
    assert(edge_side(0, 0, x, y, scale) == side(0, 0, 1, 0, x, y, scale) == y);
    assert(edge_side(0, 1, x, y, scale) == side(1, 0, 1, 1, x, y, scale) == scale - x);
    assert(edge_side(0, 2, x, y, scale) == side(1, 1, 0, 0, x, y, scale) == x - y);
    assert(edge_side(1, 0, x, y, scale) == side(0, 0, 1, 1, x, y, scale) == y - x);
    assert(edge_side(1, 1, x, y, scale) == side(1, 1, 0, 1, x, y, scale) == scale - y);
    assert(edge_side(1, 2, x, y, scale) == side(0, 1, 0, 0, x, y, scale) == x);
    assert(triangle_doubled_area(0) == side(0, 0, 1, 0, 1, 1, 1));
    assert(triangle_doubled_area(1) == side(0, 0, 1, 1, 0, 1, 1));
}

/// The device-resident mesh: the vertex list and the index list of the unit
/// quad. It never holds anything else.
#[derive(Debug)]
pub struct GeometryStore {
    vertices: Vec<Vertex>,
    indices: Vec<u16>,
}

impl GeometryStore {
    #[verifier::type_invariant]
    spec fn is_unit_quad(&self) -> bool {
        self.vertices@ == quad_vertices() && self.indices@ == quad_indices()
    }

    /// Builds the unit quad.
    pub fn new() -> (store: GeometryStore)
        ensures
            store.spec_vertices() == quad_vertices(),
            store.spec_indices() == quad_indices(),
    {
        let mut vertices: Vec<Vertex> = Vec::new();
        vertices.push(Vertex::new(ZERO, ZERO));
        vertices.push(Vertex::new(ONE, ZERO));
        vertices.push(Vertex::new(ONE, ONE));
        vertices.push(Vertex::new(ZERO, ONE));
        let mut indices: Vec<u16> = Vec::new();
        indices.push(0);
        indices.push(1);
        indices.push(2);
        indices.push(0);
        indices.push(2);
        indices.push(3);
        assert(vertices@ =~= quad_vertices());
        assert(indices@ =~= quad_indices());
        GeometryStore { vertices, indices }
    }

    /// The vertex list.
    pub closed spec fn spec_vertices(&self) -> Seq<Vertex> {
        self.vertices@
    }

    /// The index list.
    pub closed spec fn spec_indices(&self) -> Seq<u16> {
        self.indices@
    }

    /// The vertex list: always the four corners of the unit quad.
    pub fn vertices(&self) -> (vertices: &Vec<Vertex>)
        ensures
            vertices@ == self.spec_vertices(),
            vertices@ == quad_vertices(),
    {
        proof {
            use_type_invariant(self);
        }
        &self.vertices
    }

    /// The index list: always `0, 1, 2, 0, 2, 3`.
    pub fn indices(&self) -> (indices: &Vec<u16>)
        ensures
            indices@ == self.spec_indices(),
            indices@ == quad_indices(),
    {
        proof {
            use_type_invariant(self);
        }
        &self.indices
    }

    /// Number of vertices: always 4.
    pub fn vertex_count(&self) -> (count: u32)
        ensures
            count == 4,
            count == self.spec_vertices().len(),
    {
        proof {
            use_type_invariant(self);
        }
        self.vertices.len() as u32
    }

    /// Number of indices: always 6.
    pub fn index_count(&self) -> (count: u32)
        ensures
            count == 6,
            count == self.spec_indices().len(),
    {
        proof {
            use_type_invariant(self);
        }
        self.indices.len() as u32
    }

    /// What the vertex buffer holds: the memory image of the four vertex
    /// records, 32 bytes, for use as vertices.
    pub fn vertex_buffer(&self) -> (data: BufferData)
        ensures
            data.usage == BufferUsage::Vertex,
            data.bytes@ == words_image(endianness(), vertex_words(quad_vertices())),
            data.bytes@.len() == 32,
    {
        proof {
            use_type_invariant(self);
        }
        let words = flatten_vertices(&self.vertices);
        BufferData { usage: BufferUsage::Vertex, bytes: words_as_bytes(words.as_slice()) }
    }

    /// How the pipeline reads the vertex buffer: one record per vertex, 8
    /// bytes each, the position feeding shader input 0.
    pub fn layout(&self) -> (layout: VertexBufferLayout)
        ensures
            layout.matches_record(0, InputStepMode::Vertex, vertex_formats()),
            layout.stride == 8,
            layout.attributes@.len() == 1,
            layout.stride * self.spec_vertices().len() == 32,
    {
        proof {
            use_type_invariant(self);
            reveal_with_fuel(crate::layout::packed_size, 2);
        }
        let mut formats: Vec<VertexFormat> = Vec::new();
        formats.push(VertexFormat::Float2);
        assert(formats@ =~= vertex_formats());
        VertexBufferLayout::packed(0, InputStepMode::Vertex, &formats)
    }

    /// What the index buffer holds: the memory image of the six indices, 12
    /// bytes, for use as indices.
    pub fn index_buffer(&self) -> (data: BufferData)
        ensures
            data.usage == BufferUsage::Index,
            data.bytes@ == halves_image(endianness(), quad_indices()),
            data.bytes@.len() == 12,
    {
        proof {
            use_type_invariant(self);
        }
        BufferData { usage: BufferUsage::Index, bytes: halves_as_bytes(self.indices.as_slice()) }
    }
}

/// Lays a run of vertex records out as words, record after record.
pub fn flatten_vertices(vertices: &Vec<Vertex>) -> (words: Vec<u32>)
    ensures
        words@ == vertex_words(vertices@),
{
    let mut words: Vec<u32> = Vec::new();
    let mut i: usize = 0;
    while i < vertices.len()
        invariant
            i <= vertices.len(),
            words@.len() == 2 * i,
            forall|j: int| 0 <= j < 2 * i ==> words@[j] == vertex_words(vertices@)[j],
        decreases vertices.len() - i,
    {
        let vertex = vertices[i];
        words.push(vertex.vertex_position.0);
        words.push(vertex.vertex_position.1);
        i += 1;
    }
    assert(words@ =~= vertex_words(vertices@));
    words
}

} // verus!
