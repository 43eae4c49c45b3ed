//! The screen-covering quad that drives the lighting subpass.

use vstd::prelude::*;

verus! {

/// A vertex of the quad, in clip space. Coordinates are whole numbers: the
/// corners of the screen lie at -1 and 1.
#[derive(Clone, Copy, Debug, PartialEq, Eq, Structural)]
pub struct Vertex2D {
    pub x: i8,
    pub y: i8,
}

/// The vertices of the quad: two triangles that share the diagonal from the
/// corner (-1, -1) to the corner (1, 1).
pub open spec fn quad_vertices() -> Seq<Vertex2D> {
    seq![
        Vertex2D { x: 1, y: -1i8 },
        Vertex2D { x: -1i8, y: -1i8 },
        Vertex2D { x: 1, y: 1 },
        Vertex2D { x: -1i8, y: -1i8 },
        Vertex2D { x: -1i8, y: 1 },
        Vertex2D { x: 1, y: 1 },
    ]
}

/// Twice the signed area of the triangle `a`, `b`, `c`.
pub open spec fn doubled_area(a: Vertex2D, b: Vertex2D, c: Vertex2D) -> int {
    (b.x - a.x) * (c.y - a.y) - (c.x - a.x) * (b.y - a.y)
}

/// Owner of the quad's vertex data.
#[derive(Debug, PartialEq, Eq)]
pub struct TriangleDrawSystem {
    pub vertex_buffer: Vec<Vertex2D>,
}

impl TriangleDrawSystem {
    pub fn new() -> (system: TriangleDrawSystem)
        ensures
            system.vertex_buffer@ == quad_vertices(),
    {
        let mut vertex_buffer: Vec<Vertex2D> = Vec::new();
        vertex_buffer.push(Vertex2D { x: 1, y: -1 });
        vertex_buffer.push(Vertex2D { x: -1, y: -1 });
        vertex_buffer.push(Vertex2D { x: 1, y: 1 });
        vertex_buffer.push(Vertex2D { x: -1, y: -1 });
        vertex_buffer.push(Vertex2D { x: -1, y: 1 });
        vertex_buffer.push(Vertex2D { x: 1, y: 1 });
        TriangleDrawSystem { vertex_buffer }
    }
}

/// The quad is made of the corners of the clip-space square: every vertex is
/// a corner, every corner is a vertex, and the two triangles have the same
/// orientation and areas that add up to the area of the square.
pub proof fn lemma_quad_covers_screen()
    ensures
        quad_vertices().len() == 6,
        forall|i: int|
            0 <= i < 6 ==> {
                let v = #[trigger] quad_vertices()[i];
                (v.x == 1 || v.x == -1) && (v.y == 1 || v.y == -1)
            },
        quad_vertices().contains(Vertex2D { x: 1, y: 1 }),
        quad_vertices().contains(Vertex2D { x: 1, y: -1i8 }),
        quad_vertices().contains(Vertex2D { x: -1i8, y: 1 }),
        quad_vertices().contains(Vertex2D { x: -1i8, y: -1i8 }),
        doubled_area(quad_vertices()[0], quad_vertices()[1], quad_vertices()[2]) == -4,
        doubled_area(quad_vertices()[3], quad_vertices()[4], quad_vertices()[5]) == -4,
{
    let q = quad_vertices();
    let (a, b, c) = (q[0], q[1], q[2]);
    assert(doubled_area(a, b, c) == -4) by (nonlinear_arith)
        requires
            a.x == 1 && a.y == -1 && b.x == -1 && b.y == -1 && c.x == 1 && c.y == 1,
    ;
    let (d, e, f) = (q[3], q[4], q[5]);
    assert(doubled_area(d, e, f) == -4) by (nonlinear_arith)
        requires
            d.x == -1 && d.y == -1 && e.x == -1 && e.y == 1 && f.x == 1 && f.y == 1,
    ;
}

} // verus!
