use vstd::prelude::*;

verus! {

/// Bytes in one 32-bit float.
pub const FLOAT_BYTES: usize = 4;

/// Floats per vertex: three of position, then three of colour.
pub const FLOATS_PER_VERTEX: usize = 6;

/// Components of each of the two vertex attributes.
pub const ATTRIBUTE_COMPONENTS: i32 = 3;

/// Vertices in the triangle.
pub const VERTEX_COUNT: i32 = 3;

/// How one vertex attribute is read from the interleaved buffer.
#[derive(Clone, Copy, Debug, PartialEq, Eq, Structural)]
pub struct VertexAttribute {
    pub location: u32,
    pub components: i32,
    pub stride_bytes: i32,
    pub offset_bytes: usize,
}

/// Position at slot 0 and colour at slot 1, interleaved six floats apart,
/// colour three floats into each vertex.
pub open spec fn spec_vertex_layout() -> Seq<VertexAttribute> {
    seq![
        VertexAttribute { location: 0, components: 3, stride_bytes: 24, offset_bytes: 0 },
        VertexAttribute { location: 1, components: 3, stride_bytes: 24, offset_bytes: 12 },
    ]
}

/// The attribute layout of the triangle's vertex buffer.
pub fn vertex_layout() -> (r: Vec<VertexAttribute>)
    ensures
        r@ == spec_vertex_layout(),
{
    let stride = (FLOATS_PER_VERTEX * FLOAT_BYTES) as i32;
    let mut layout: Vec<VertexAttribute> = Vec::new();
    layout.push(VertexAttribute {
        location: 0,
        components: ATTRIBUTE_COMPONENTS,
        stride_bytes: stride,
        offset_bytes: 0,
    });
    layout.push(VertexAttribute {
        location: 1,
        components: ATTRIBUTE_COMPONENTS,
        stride_bytes: stride,
        offset_bytes: 3 * FLOAT_BYTES,
    });
    assert(layout@ =~= spec_vertex_layout());
    layout
}

/// The size in bytes of a buffer of `float_count` floats, where it fits the
/// driver's signed size type.
pub fn buffer_size_bytes(float_count: usize) -> (r: Option<isize>)
    ensures
        float_count * 4 <= isize::MAX ==> r == Some((float_count * 4) as isize),
        float_count * 4 > isize::MAX ==> r is None,
{
    if float_count > (isize::MAX as usize) / FLOAT_BYTES {
        None
    } else {
        Some((float_count * FLOAT_BYTES) as isize)
    }
}

/// The vertex buffer and the vertex array that describes it, created once.
#[derive(Debug)]
pub struct Geometry {
    vao: u32,
    vbo: u32,
    released: bool,
}

impl Geometry {
    pub closed spec fn spec_vao(&self) -> u32 {
        self.vao
    }

    pub closed spec fn spec_vbo(&self) -> u32 {
        self.vbo
    }

    pub closed spec fn is_released(&self) -> bool {
        self.released
    }

    pub fn new(vao: u32, vbo: u32) -> (r: Geometry)
        ensures
            r.spec_vao() == vao,
            r.spec_vbo() == vbo,
            !r.is_released(),
    {
        Geometry { vao, vbo, released: false }
    }

    pub fn vao(&self) -> (r: u32)
        ensures
            r == self.spec_vao(),
    {
        self.vao
    }

    pub fn vbo(&self) -> (r: u32)
        ensures
            r == self.spec_vbo(),
    {
        self.vbo
    }

    /// Marks both objects released, handing back the vertex array and buffer
    /// handles to delete the first time only.
    pub fn release(&mut self) -> (r: Option<(u32, u32)>)
        ensures
            final(self).spec_vao() == old(self).spec_vao(),
            final(self).spec_vbo() == old(self).spec_vbo(),
            final(self).is_released(),
            r == if old(self).is_released() {
                None
            } else {
                Some((old(self).spec_vao(), old(self).spec_vbo()))
            },
    {
        if self.released {
            None
        } else {
            self.released = true;
            Some((self.vao, self.vbo))
        }
    }
}

} // verus!
