//! The quad: four corners and the two triangles that fill it.
//!
//! Positions are kept exact, as whole tenths of the clip space unit; whoever
//! fills the vertex buffer divides by `POSITION_SCALE`.

use vstd::prelude::*;

verus! {

/// The number of corners.
pub const VERTEX_COUNT: usize = 4;

/// The number of indices: two triangles of three.
pub const INDEX_COUNT: usize = 6;

/// What one unit of clip space is in the positions kept here.
pub const POSITION_SCALE: i32 = 10;

/// The bytes of one vertex in the vertex buffer: three 32-bit numbers for the
/// position and two for the texture coordinate.
pub const VERTEX_STRIDE: u32 = 20;

/// The bytes of one index in the index buffer.
pub const INDEX_STRIDE: u32 = 2;

/// A corner of the quad: its position in tenths of the clip space unit, and its
/// texture coordinate in whole units.
#[derive(Clone, Copy, Debug, PartialEq, Eq, Structural)]
pub struct Vertex {
    pub x: i32,
    pub y: i32,
    pub z: i32,
    pub u: i32,
    pub v: i32,
}

/// The corners: bottom left, top left, bottom right, top right. The quad spans
/// -0.4 to 0.4 across and -0.7 to 0.7 up, and the texture hangs on it upright.
pub open spec fn quad_vertices_spec() -> Seq<Vertex> {
    seq![
        Vertex { x: (-4i32), y: (-7i32), z: 0, u: 0, v: 1 },
        Vertex { x: (-4i32), y: 7, z: 0, u: 0, v: 0 },
        Vertex { x: 4, y: (-7i32), z: 0, u: 1, v: 1 },
        Vertex { x: 4, y: 7, z: 0, u: 1, v: 0 },
    ]
}

/// The indices: the triangle of corners 0, 1, 2 and the triangle of corners
/// 2, 1, 3.
pub open spec fn quad_indices_spec() -> Seq<u16> {
    seq![0u16, 1u16, 2u16, 2u16, 1u16, 3u16]
}

/// The corners of the quad, in the order of the vertex buffer.
pub fn quad_vertices() -> (vertices: [Vertex; 4])
    ensures
        vertices@ == quad_vertices_spec(),
{
    let vertices = [
        Vertex { x: -4, y: -7, z: 0, u: 0, v: 1 },
        Vertex { x: -4, y: 7, z: 0, u: 0, v: 0 },
        Vertex { x: 4, y: -7, z: 0, u: 1, v: 1 },
        Vertex { x: 4, y: 7, z: 0, u: 1, v: 0 },
    ];
    assert(vertices@ =~= quad_vertices_spec());
    vertices
}

/// The indices of the quad's two triangles, in the order of the index buffer.
/// Each of them names a corner.
pub fn quad_indices() -> (indices: [u16; 6])
    ensures
        indices@ == quad_indices_spec(),
        forall|i: int| 0 <= i < 6 ==> (#[trigger] indices@[i]) < VERTEX_COUNT,
{
    let indices: [u16; 6] = [0, 1, 2, 2, 1, 3];
    assert(indices@ =~= quad_indices_spec());
    indices
}

/// A point of the plane, on whatever grid the corners lie on.
pub struct Point {
    pub x: int,
    pub y: int,
}

/// Where corner `vertex` lies.
pub open spec fn position(vertex: Vertex) -> Point {
    Point { x: vertex.x as int, y: vertex.y as int }
}

/// Twice the area of the triangle `a`, `b`, `p`, counted positive where `p` lies
/// to the left of the way from `a` to `b`.
pub open spec fn cross(a: Point, b: Point, p: Point) -> int {
    (b.x - a.x) * (p.y - a.y) - (b.y - a.y) * (p.x - a.x)
}

/// `p` lies in the triangle `a`, `b`, `c`, its edges counted in: on the same
/// side of all three edges, or on one of them.
pub open spec fn in_triangle(a: Point, b: Point, c: Point, p: Point) -> bool {
    ||| (cross(a, b, p) >= 0 && cross(b, c, p) >= 0 && cross(c, a, p) >= 0)
    ||| (cross(a, b, p) <= 0 && cross(b, c, p) <= 0 && cross(c, a, p) <= 0)
}

/// `corners` are the corners of an upright rectangle in the order bottom left,
/// top left, bottom right, top right.
pub open spec fn is_rectangle(corners: Seq<Point>) -> bool {
    &&& corners.len() == 4
    &&& corners[0].x == corners[1].x
    &&& corners[2].x == corners[3].x
    &&& corners[0].y == corners[2].y
    &&& corners[1].y == corners[3].y
    &&& corners[0].x < corners[3].x
    &&& corners[0].y < corners[3].y
}

/// `p` lies in the rectangle that `corners` span, its edges counted in.
pub open spec fn in_rectangle(corners: Seq<Point>, p: Point) -> bool {
    corners[0].x <= p.x <= corners[3].x && corners[0].y <= p.y <= corners[3].y
}

/// `p` lies in triangle `triangle` (0 or 1) of the quad on `corners`: the one
/// whose corners the three indices from `3 * triangle` on name.
pub open spec fn in_quad_triangle(corners: Seq<Point>, triangle: int, p: Point) -> bool {
    in_triangle(
        corners[quad_indices_spec()[3 * triangle] as int],
        corners[quad_indices_spec()[3 * triangle + 1] as int],
        corners[quad_indices_spec()[3 * triangle + 2] as int],
        p,
    )
}

/// Every index names one of the four corners.
pub proof fn lemma_indices_name_corners(i: int)
    requires
        0 <= i < quad_indices_spec().len(),
    ensures
        quad_indices_spec().len() == INDEX_COUNT,
        quad_vertices_spec().len() == VERTEX_COUNT,
        quad_indices_spec()[i] < VERTEX_COUNT,
{
}

/// The two triangles share the edge between corners 1 and 2 and nothing else:
/// a corner belongs to both exactly when it is corner 1 or corner 2.
pub proof fn lemma_triangles_share_edge(corner: u16)
    ensures
        ({
            let indices = quad_indices_spec();
            let in_first = indices[0] == corner || indices[1] == corner || indices[2] == corner;
            let in_second = indices[3] == corner || indices[4] == corner || indices[5] == corner;
            in_first && in_second <==> corner == 1 || corner == 2
        }),
{
}

/// For a positive `k`, multiplying by `k` keeps the order.
proof fn lemma_scale_order(k: int, t: int, m: int)
    by (nonlinear_arith)
    requires
        k > 0,
    ensures
        t <= m <==> k * t <= k * m,
        t >= 0 <==> k * t >= 0,
        t <= 0 <==> k * t <= 0,
{
}

/// The two triangles together cover the rectangle exactly: a point lies in the
/// rectangle that the corners span if and only if it lies in one of the
/// triangles. A point in both lies on their shared edge.
pub proof fn lemma_triangles_cover_rectangle(corners: Seq<Point>, p: Point)
    requires
        is_rectangle(corners),
    ensures
        in_rectangle(corners, p) <==> in_quad_triangle(corners, 0, p) || in_quad_triangle(
            corners,
            1,
            p,
        ),
        in_quad_triangle(corners, 0, p) && in_quad_triangle(corners, 1, p) ==> cross(
            corners[1],
            corners[2],
            p,
        ) == 0,
{
    let w = corners[3].x - corners[0].x;
    let h = corners[3].y - corners[0].y;
    let dx = p.x - corners[0].x;
    let dy = p.y - corners[0].y;
    let slope = w * dy + h * dx;
    let area = w * h;
    // First triangle: corners 0, 1, 2.
    assert(cross(corners[0], corners[1], p) == -(h * dx)) by (nonlinear_arith)
        requires
            corners[0].x == corners[1].x,
            h == corners[1].y - corners[0].y,
            dx == p.x - corners[0].x,
            cross(corners[0], corners[1], p) == (corners[1].x - corners[0].x) * (p.y
                - corners[0].y) - (corners[1].y - corners[0].y) * (p.x - corners[0].x),
    ;
    assert(cross(corners[1], corners[2], p) == slope - area) by (nonlinear_arith)
        requires
            w == corners[2].x - corners[1].x,
            h == corners[1].y - corners[2].y,
            dx == p.x - corners[1].x,
            dy - h == p.y - corners[1].y,
            slope == w * dy + h * dx,
            area == w * h,
            cross(corners[1], corners[2], p) == (corners[2].x - corners[1].x) * (p.y
                - corners[1].y) - (corners[2].y - corners[1].y) * (p.x - corners[1].x),
    ;
    assert(cross(corners[2], corners[0], p) == -(w * dy)) by (nonlinear_arith)
        requires
            corners[0].y == corners[2].y,
            -w == corners[0].x - corners[2].x,
            dy == p.y - corners[2].y,
            cross(corners[2], corners[0], p) == (corners[0].x - corners[2].x) * (p.y
                - corners[2].y) - (corners[0].y - corners[2].y) * (p.x - corners[2].x),
    ;
    // Second triangle: corners 2, 1, 3.
    assert(cross(corners[2], corners[1], p) == area - slope) by (nonlinear_arith)
        requires
            -w == corners[1].x - corners[2].x,
            h == corners[1].y - corners[2].y,
            dx - w == p.x - corners[2].x,
            dy == p.y - corners[2].y,
            slope == w * dy + h * dx,
            area == w * h,
            cross(corners[2], corners[1], p) == (corners[1].x - corners[2].x) * (p.y
                - corners[2].y) - (corners[1].y - corners[2].y) * (p.x - corners[2].x),
    ;
    assert(cross(corners[1], corners[3], p) == w * (dy - h)) by (nonlinear_arith)
        requires
            corners[1].y == corners[3].y,
            w == corners[3].x - corners[1].x,
            dy - h == p.y - corners[1].y,
            cross(corners[1], corners[3], p) == (corners[3].x - corners[1].x) * (p.y
                - corners[1].y) - (corners[3].y - corners[1].y) * (p.x - corners[1].x),
    ;
    assert(cross(corners[3], corners[2], p) == h * (dx - w)) by (nonlinear_arith)
        requires
            corners[2].x == corners[3].x,
            -h == corners[2].y - corners[3].y,
            dx - w == p.x - corners[3].x,
            cross(corners[3], corners[2], p) == (corners[2].x - corners[3].x) * (p.y
                - corners[3].y) - (corners[2].y - corners[3].y) * (p.x - corners[3].x),
    ;
    lemma_scale_order(h, dx, w);
    lemma_scale_order(w, dy, h);
    lemma_scale_order(h, dx - w, 0);
    lemma_scale_order(w, dy - h, 0);
    assert(h * w == area && w * h == area) by (nonlinear_arith)
        requires
            area == w * h,
    ;
    assert(h * (dx - w) == h * dx - area && w * (dy - h) == w * dy - area) by (nonlinear_arith)
        requires
            area == w * h,
    ;
}

/// The corners kept here are the corners of such a rectangle.
pub proof fn lemma_quad_is_rectangle()
    ensures
        is_rectangle(quad_vertices_spec().map_values(|vertex: Vertex| position(vertex))),
{
}

} // verus!
