//! The fixed geometry that every frame draws, and the layout of what the shader stages read.
//!
//! Panning and zooming never move a vertex: they change the camera that the fragment
//! stage reads. So the geometry is a constant, two triangles over the whole of clip
//! space, and what is proved of it holds of every frame.

use vstd::prelude::*;

verus! {

/// Number of vertices in the quad: two triangles.
pub const QUAD_VERTEX_COUNT: u32 = 6;

/// Number of instances drawn per frame.
pub const QUAD_INSTANCE_COUNT: u32 = 1;

/// Bytes from one vertex to the next: two 32-bit components.
pub const VERTEX_STRIDE: u64 = 8;

/// Shader location of the position attribute.
pub const POSITION_LOCATION: u32 = 0;

/// Byte offset of the position attribute within a vertex.
pub const POSITION_OFFSET: u64 = 0;

/// Size in bytes of the camera block: centre and extent, two 32-bit components each.
pub const CAMERA_UNIFORM_SIZE: u64 = 16;

/// Byte offset of the camera's centre within the camera block.
pub const CAMERA_CENTER_OFFSET: u64 = 0;

/// Byte offset of the camera's extent within the camera block.
pub const CAMERA_EXTENT_OFFSET: u64 = 8;

/// Binding index of the camera block, which only the fragment stage sees.
pub const CAMERA_BINDING: u32 = 0;

/// The low edge of clip space on either axis.
pub const CLIP_MIN: i8 = -1;

/// The high edge of clip space on either axis.
pub const CLIP_MAX: i8 = 1;

/// A corner in clip space, where the viewport spans -1 to 1 both ways and `y` grows upwards.
#[derive(Clone, Copy, Debug, PartialEq, Eq, Structural)]
pub struct ClipPoint {
    pub x: i8,
    pub y: i8,
}

/// The quad's vertices in drawing order: the upper left triangle, then the lower right
/// one, each counter-clockwise.
pub open spec fn quad() -> Seq<ClipPoint> {
    seq![
        ClipPoint { x: CLIP_MIN, y: CLIP_MAX },
        ClipPoint { x: CLIP_MIN, y: CLIP_MIN },
        ClipPoint { x: CLIP_MAX, y: CLIP_MAX },
        ClipPoint { x: CLIP_MAX, y: CLIP_MAX },
        ClipPoint { x: CLIP_MIN, y: CLIP_MIN },
        ClipPoint { x: CLIP_MAX, y: CLIP_MIN },
    ]
}

/// The quad's vertices in drawing order.
pub fn quad_vertices() -> (vertices: Vec<ClipPoint>)
    ensures
        vertices@ == quad(),
        vertices.len() == QUAD_VERTEX_COUNT,
{
    let mut vertices: Vec<ClipPoint> = Vec::new();
    vertices.push(ClipPoint { x: CLIP_MIN, y: CLIP_MAX });
    vertices.push(ClipPoint { x: CLIP_MIN, y: CLIP_MIN });
    vertices.push(ClipPoint { x: CLIP_MAX, y: CLIP_MAX });
    vertices.push(ClipPoint { x: CLIP_MAX, y: CLIP_MAX });
    vertices.push(ClipPoint { x: CLIP_MIN, y: CLIP_MIN });
    vertices.push(ClipPoint { x: CLIP_MAX, y: CLIP_MIN });
    assert(vertices@ =~= quad());
    vertices
}

/// On which side of the line from `a` to `b` the point `(px / scale, py / scale)` lies:
/// positive to the left of it, zero on it, negative to the right. The value is the cross
/// product of `b - a` and the point's offset from `a`, scaled by `scale`.
pub open spec fn side_of_edge(a: ClipPoint, b: ClipPoint, px: int, py: int, scale: int) -> int {
    (b.x - a.x) * (py - a.y * scale) - (b.y - a.y) * (px - a.x * scale)
}

/// The point `(px / scale, py / scale)` lies in the counter-clockwise triangle `a`, `b`,
/// `c`, its edges included.
pub open spec fn in_triangle(
    a: ClipPoint,
    b: ClipPoint,
    c: ClipPoint,
    px: int,
    py: int,
    scale: int,
) -> bool {
    &&& side_of_edge(a, b, px, py, scale) >= 0
    &&& side_of_edge(b, c, px, py, scale) >= 0
    &&& side_of_edge(c, a, px, py, scale) >= 0
}

/// The point lies in the quad's first triangle.
pub open spec fn in_first_triangle(px: int, py: int, scale: int) -> bool {
    in_triangle(quad()[0], quad()[1], quad()[2], px, py, scale)
}

/// The point lies in the quad's second triangle.
pub open spec fn in_second_triangle(px: int, py: int, scale: int) -> bool {
    in_triangle(quad()[3], quad()[4], quad()[5], px, py, scale)
}

/// Twice the signed area of the triangle `a`, `b`, `c`: positive where it is counter-clockwise.
pub open spec fn doubled_area(a: ClipPoint, b: ClipPoint, c: ClipPoint) -> int {
    (b.x - a.x) * (c.y - a.y) - (b.y - a.y) * (c.x - a.x)
}

/// What `side_of_edge` comes to along an edge whose ends are corners of clip space.
proof fn lemma_side_of_edge_at_corners(a: ClipPoint, b: ClipPoint, px: int, py: int, scale: int)
    requires
        a.x == CLIP_MIN || a.x == CLIP_MAX,
        a.y == CLIP_MIN || a.y == CLIP_MAX,
        b.x == CLIP_MIN || b.x == CLIP_MAX,
        b.y == CLIP_MIN || b.y == CLIP_MAX,
    ensures
        b.x == a.x && b.y < a.y ==> side_of_edge(a, b, px, py, scale) == 2 * (px - a.x * scale),
        b.x == a.x && b.y > a.y ==> side_of_edge(a, b, px, py, scale) == 2 * (a.x * scale - px),
        b.y == a.y && b.x < a.x ==> side_of_edge(a, b, px, py, scale) == 2 * (a.y * scale - py),
        b.y == a.y && b.x > a.x ==> side_of_edge(a, b, px, py, scale) == 2 * (py - a.y * scale),
        b.x > a.x && b.y > a.y ==> side_of_edge(a, b, px, py, scale) == 2 * (py - px),
        b.x < a.x && b.y < a.y ==> side_of_edge(a, b, px, py, scale) == 2 * (px - py),
        a.x * scale == (if a.x == CLIP_MIN { -scale } else { scale }),
        a.y * scale == (if a.y == CLIP_MIN { -scale } else { scale }),
{
    let (ax, ay, bx, by) = (a.x as int, a.y as int, b.x as int, b.y as int);
    assert(side_of_edge(a, b, px, py, scale) == (bx - ax) * (py - ay * scale) - (by - ay) * (px
        - ax * scale));
    assert((ax == -1 || ax == 1) && (ay == -1 || ay == 1) && (bx == -1 || bx == 1) && (by == -1
        || by == 1));
    assert({
        &&& bx == ax && by < ay ==> (bx - ax) * (py - ay * scale) - (by - ay) * (px - ax * scale)
            == 2 * (px - ax * scale)
        &&& bx == ax && by > ay ==> (bx - ax) * (py - ay * scale) - (by - ay) * (px - ax * scale)
            == 2 * (ax * scale - px)
        &&& by == ay && bx < ax ==> (bx - ax) * (py - ay * scale) - (by - ay) * (px - ax * scale)
            == 2 * (ay * scale - py)
        &&& by == ay && bx > ax ==> (bx - ax) * (py - ay * scale) - (by - ay) * (px - ax * scale)
            == 2 * (py - ay * scale)
        &&& bx > ax && by > ay ==> (bx - ax) * (py - ay * scale) - (by - ay) * (px - ax * scale)
            == 2 * (py - px)
        &&& bx < ax && by < ay ==> (bx - ax) * (py - ay * scale) - (by - ay) * (px - ax * scale)
            == 2 * (px - py)
        &&& ax * scale == (if ax == -1 { -scale } else { scale })
        &&& ay * scale == (if ay == -1 { -scale } else { scale })
    }) by (nonlinear_arith)
        requires
            ax == -1 || ax == 1,
            ay == -1 || ay == 1,
            bx == -1 || bx == 1,
            by == -1 || by == 1,
    ;
}

/// The two triangles cover clip space and nothing else: a point with rational
/// coordinates `px / scale` and `py / scale` lies in one of them exactly if both
/// coordinates are between -1 and 1.
pub proof fn lemma_quad_covers_clip_space(px: int, py: int, scale: int)
    requires
        scale > 0,
    ensures
        (in_first_triangle(px, py, scale) || in_second_triangle(px, py, scale)) <==> (-scale <= px
            <= scale && -scale <= py <= scale),
{
    let q = quad();
    lemma_side_of_edge_at_corners(q[0], q[1], px, py, scale);
    lemma_side_of_edge_at_corners(q[1], q[2], px, py, scale);
    lemma_side_of_edge_at_corners(q[2], q[0], px, py, scale);
    lemma_side_of_edge_at_corners(q[3], q[4], px, py, scale);
    lemma_side_of_edge_at_corners(q[4], q[5], px, py, scale);
    lemma_side_of_edge_at_corners(q[5], q[3], px, py, scale);
}

/// The two triangles do not overlap: a point in both lies on the diagonal they share.
pub proof fn lemma_quad_triangles_meet_on_diagonal(px: int, py: int, scale: int)
    requires
        scale > 0,
        in_first_triangle(px, py, scale),
        in_second_triangle(px, py, scale),
    ensures
        px == py,
{
    let q = quad();
    lemma_side_of_edge_at_corners(q[1], q[2], px, py, scale);
    lemma_side_of_edge_at_corners(q[3], q[4], px, py, scale);
}

/// Both triangles are counter-clockwise and each is half of the square of side 2.
pub proof fn lemma_quad_triangles_are_halves()
    ensures
        doubled_area(quad()[0], quad()[1], quad()[2]) == 4,
        doubled_area(quad()[3], quad()[4], quad()[5]) == 4,
{
    let (low, high) = (CLIP_MIN as int, CLIP_MAX as int);
    assert((low - low) * (high - high) - (low - high) * (high - low) == 4) by (nonlinear_arith)
        requires
            low == -1,
            high == 1,
    ;
    assert((low - high) * (low - high) - (low - high) * (high - high) == 4) by (nonlinear_arith)
        requires
            low == -1,
            high == 1,
    ;
}

/// The camera block is its two fields side by side with nothing between or after them,
/// and a vertex is one position and nothing else.
pub proof fn lemma_layouts_are_tight()
    ensures
        CAMERA_CENTER_OFFSET == 0,
        CAMERA_EXTENT_OFFSET == CAMERA_CENTER_OFFSET + 8,
        CAMERA_UNIFORM_SIZE == CAMERA_EXTENT_OFFSET + 8,
        CAMERA_UNIFORM_SIZE % 16 == 0,
        VERTEX_STRIDE == POSITION_OFFSET + 8,
{
}

} // verus!
