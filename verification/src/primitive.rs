use vstd::prelude::*;

verus! {

/// Built-in primitive shapes.  Their vertex tables — plain triangle lists
/// in the layout [`crate::Mesh`] expects — are data the host supplies when
/// it uploads the buffer; the shape fixes how many vertices that is.
#[derive(Clone, Copy, Debug, PartialEq, Eq)]
pub enum Primitive {
    Quad,
    Triangle,
    Cube,
}

impl Primitive {
    /// Number of vertices in the shape's triangle list.
    pub open spec fn spec_vertex_count(self) -> i32 {
        match self {
            Primitive::Quad => 6,
            Primitive::Triangle => 3,
            Primitive::Cube => 36,
        }
    }

    /// Number of vertices in the shape's triangle list: two triangles for
    /// the quad, one for the triangle, twelve for the cube.
    pub fn vertex_count(&self) -> (n: i32)
        ensures
            n == self.spec_vertex_count(),
    {
        match self {
            Primitive::Quad => 6,
            Primitive::Triangle => 3,
            Primitive::Cube => 36,
        }
    }
}

} // verus!
