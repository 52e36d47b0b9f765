//! Rectangles: from a corner, a width and a height in pixels to four
//! vertices in normalized device space and the two triangles that cover them.

use vstd::prelude::*;
use crate::buffer::{Ratio, Vertex, RECT_INDICES};
use crate::upload::{
    cast_words, native_bytes, BufferContents, BufferId, BufferInitDescriptor, BufferInitView,
    BufferUsages, ContentsView, ResourceAllocator,
};

verus! {

/// Half the width of the logical viewport, in pixels.
pub const HALF_WIDTH: i64 = 640;

/// Half the height of the logical viewport, in pixels.
pub const HALF_HEIGHT: i64 = 360;

/// A pixel of the logical viewport, counted from its top-left corner.
#[derive(Clone, Copy, Debug, PartialEq, Eq, Structural)]
pub struct Point {
    pub x: i32,
    pub y: i32,
}

/// The horizontal device coordinate of pixel column `px`, times `HALF_WIDTH`.
pub open spec fn x_ndc_num(px: int) -> int {
    px - HALF_WIDTH
}

/// The vertical device coordinate of pixel row `py`, times `HALF_HEIGHT`.
/// Rows count downwards, device coordinates upwards.
pub open spec fn y_ndc_num(py: int) -> int {
    -py + HALF_HEIGHT
}

/// The colour that every corner gets: mid-gray on each channel.
pub open spec fn gray() -> Ratio {
    Ratio { num: 1, den: 2 }
}

/// The horizontal device coordinate of pixel column `px`:
/// `(px - HALF_WIDTH) / HALF_WIDTH`.
pub open spec fn x_ndc_spec(px: int) -> Ratio {
    Ratio { num: x_ndc_num(px) as i64, den: HALF_WIDTH }
}

/// The vertical device coordinate of pixel row `py`:
/// `(-py + HALF_HEIGHT) / HALF_HEIGHT`.
pub open spec fn y_ndc_spec(py: int) -> Ratio {
    Ratio { num: y_ndc_num(py) as i64, den: HALF_HEIGHT }
}

/// The vertex at pixel `(px, py)`.
pub open spec fn corner(px: int, py: int) -> Vertex {
    Vertex {
        position: [x_ndc_spec(px), y_ndc_spec(py), Ratio { num: 0, den: 1 }],
        color: [gray(), gray(), gray()],
    }
}

/// The corners of a rectangle: top-left, bottom-left, bottom-right, top-right.
pub open spec fn quad(origin: Point, width: u32, height: u32) -> Seq<Vertex> {
    seq![
        corner(origin.x as int, origin.y as int),
        corner(origin.x as int, origin.y + height),
        corner(origin.x + width, origin.y + height),
        corner(origin.x + width, origin.y as int),
    ]
}

/// Twice the signed area of the triangle `a b c`, times
/// `HALF_WIDTH * HALF_HEIGHT`, for vertices whose positions are over those
/// denominators. Positive when the triangle runs counter-clockwise.
pub open spec fn signed_area2(a: Vertex, b: Vertex, c: Vertex) -> int {
    let (ax, ay) = (a.position[0].num as int, a.position[1].num as int);
    let (bx, by) = (b.position[0].num as int, b.position[1].num as int);
    let (cx, cy) = (c.position[0].num as int, c.position[1].num as int);
    (bx - ax) * (cy - ay) - (cx - ax) * (by - ay)
}

/// `signed_area2` of triangle number `k` of an indexed triangle list.
pub open spec fn triangle_area2(vertices: Seq<Vertex>, indices: Seq<u16>, k: int) -> int {
    signed_area2(
        vertices[indices[3 * k] as int],
        vertices[indices[3 * k + 1] as int],
        vertices[indices[3 * k + 2] as int],
    )
}

/// Twice the signed area enclosed by the outline `v[0] v[1] v[2] v[3]`, in
/// the unit of `signed_area2`.
pub open spec fn outline_area2(v: Seq<Vertex>) -> int {
    edge_area2(v[0], v[1]) + edge_area2(v[1], v[2]) + edge_area2(v[2], v[3]) + edge_area2(
        v[3],
        v[0],
    )
}

/// What the edge from `a` to `b` adds to twice the area of an outline.
pub open spec fn edge_area2(a: Vertex, b: Vertex) -> int {
    a.position[0].num * b.position[1].num - b.position[0].num * a.position[1].num
}

/// The request for a rectangle's vertex buffer.
pub open spec fn vertex_upload(origin: Point, width: u32, height: u32) -> BufferInitView {
    BufferInitView {
        label: "Vertex Buffer"@,
        contents: ContentsView::Vertices(quad(origin, width, height)),
        usage: BufferUsages::Vertex,
    }
}

/// Whether `upload` is a request for a rectangle's index buffer: the bytes
/// of `RECT_INDICES` as the machine stores them.
pub open spec fn is_index_upload(upload: BufferInitView) -> bool {
    &&& upload.label == "Index Buffer"@
    &&& upload.usage == BufferUsages::Index
    &&& upload.contents matches ContentsView::Bytes(bytes)
    &&& native_bytes(RECT_INDICES@, bytes)
}

/// The horizontal device coordinate of pixel column `px`, for every column
/// whose numerator an `i64` can hold.
pub fn x_ndc(px: i64) -> (ndc: Ratio)
    requires
        i64::MIN <= x_ndc_num(px as int),
    ensures
        ndc == x_ndc_spec(px as int),
{
    Ratio { num: px - HALF_WIDTH, den: HALF_WIDTH }
}

/// The vertical device coordinate of pixel row `py`, for every row whose
/// numerator an `i64` can hold.
pub fn y_ndc(py: i64) -> (ndc: Ratio)
    requires
        y_ndc_num(py as int) <= i64::MAX,
    ensures
        ndc == y_ndc_spec(py as int),
{
    Ratio { num: HALF_HEIGHT - py, den: HALF_HEIGHT }
}

/// A rectangle whose buffers have been asked for.
#[derive(Clone, Copy, Debug, PartialEq, Eq)]
pub struct Rectangle {
    pub vertex_buffer: BufferId,
    pub index_buffer: BufferId,
    pub num_indices: u32,
    /// The top-left corner.
    pub point: Point,
    pub width: u32,
    pub height: u32,
}

impl Rectangle {
    /// Builds the rectangle with top-left corner `point` and asks `allocator`
    /// for its vertex buffer and its index buffer, in that order.
    ///
    /// `color` is accepted and has no effect: every corner is mid-gray.
    /// A width or height of zero gives a quad without area; it is not refused.
    pub fn new(
        allocator: &mut ResourceAllocator,
        point: Point,
        width: u32,
        height: u32,
        color: Option<Ratio>,
    ) -> (rect: Self)
        ensures
            rect.point == point,
            rect.width == width,
            rect.height == height,
            rect.num_indices == 6,
            rect.vertex_buffer.0 == old(allocator)@.len(),
            rect.index_buffer.0 == old(allocator)@.len() + 1,
            final(allocator)@.len() == old(allocator)@.len() + 2,
            final(allocator)@.take(old(allocator)@.len() as int) == old(allocator)@,
            final(allocator)@[old(allocator)@.len() as int] == vertex_upload(point, width, height),
            is_index_upload(final(allocator)@[old(allocator)@.len() as int + 1]),
            quad(point, width, height).len() == 4,
            forall|i: int|
                0 <= i < RECT_INDICES@.len() ==> (#[trigger] RECT_INDICES@[i]) < quad(
                    point,
                    width,
                    height,
                ).len(),
    {
        let _ = color;
        let left: i64 = point.x as i64;
        let top: i64 = point.y as i64;
        let right: i64 = left + width as i64;
        let bottom: i64 = top + height as i64;
        let mut vertices: Vec<Vertex> = Vec::new();
        vertices.push(vertex_at(left, top));
        vertices.push(vertex_at(left, bottom));
        vertices.push(vertex_at(right, bottom));
        vertices.push(vertex_at(right, top));
        assert(vertices@ =~= quad(point, width, height));
        let vertex_buffer = allocator.create_buffer_init(
            BufferInitDescriptor {
                label: "Vertex Buffer",
                contents: BufferContents::Vertices(vertices),
                usage: BufferUsages::Vertex,
            },
        );
        let bytes = cast_words(&RECT_INDICES);
        let index_buffer = allocator.create_buffer_init(
            BufferInitDescriptor {
                label: "Index Buffer",
                contents: BufferContents::Bytes(bytes),
                usage: BufferUsages::Index,
            },
        );
        let num_indices: u32 = RECT_INDICES.len() as u32;
        assert(allocator@.take(old(allocator)@.len() as int) =~= old(allocator)@);
        Rectangle { vertex_buffer, index_buffer, num_indices, point, width, height }
    }
}

/// A rectangle has four corners and six indices, and every index names one
/// of the corners.
pub proof fn lemma_indices_name_corners(origin: Point, width: u32, height: u32)
    ensures
        quad(origin, width, height).len() == 4,
        RECT_INDICES@.len() == 6,
        forall|i: int|
            0 <= i < RECT_INDICES@.len() ==> 0 <= (#[trigger] RECT_INDICES@[i]) < quad(
                origin,
                width,
                height,
            ).len(),
{
}

/// The two triangles of a rectangle cover it without gap or overlap. Each
/// has twice-area `width * height`, half of the `2 * width * height` of the
/// outline, and neither is negative, so both run counter-clockwise. They
/// meet in the diagonal from the first corner to the third, and the second
/// and fourth corner lie on opposite sides of it.
pub proof fn lemma_triangles_cover_quad(origin: Point, width: u32, height: u32)
    ensures
        triangle_area2(quad(origin, width, height), RECT_INDICES@, 0) == width * height,
        triangle_area2(quad(origin, width, height), RECT_INDICES@, 1) == width * height,
        outline_area2(quad(origin, width, height)) == 2 * (width * height),
        width * height >= 0,
        signed_area2(
            quad(origin, width, height)[0],
            quad(origin, width, height)[2],
            quad(origin, width, height)[1],
        ) == -(width * height),
        signed_area2(
            quad(origin, width, height)[0],
            quad(origin, width, height)[2],
            quad(origin, width, height)[3],
        ) == width * height,
{
    let q = quad(origin, width, height);
    let x = x_ndc_num(origin.x as int);
    let y = y_ndc_num(origin.y as int);
    let w = width as int;
    let h = height as int;
    assert(q[0].position[0].num == x && q[0].position[1].num == y);
    assert(q[1].position[0].num == x && q[1].position[1].num == y - h);
    assert(q[2].position[0].num == x + w && q[2].position[1].num == y - h);
    assert(q[3].position[0].num == x + w && q[3].position[1].num == y);
    assert((x - x) * ((y - h) - y) - ((x + w) - x) * ((y - h) - y) == w * h)
        by (nonlinear_arith);
    assert(((x + w) - x) * (y - y) - ((x + w) - x) * ((y - h) - y) == w * h)
        by (nonlinear_arith);
    assert(x * (y - h) - x * y + (x * (y - h) - (x + w) * (y - h)) + ((x + w) * y - (x + w) * (y
        - h)) + ((x + w) * y - x * y) == 2 * (w * h)) by (nonlinear_arith);
    assert(((x + w) - x) * ((y - h) - y) - (x - x) * ((y - h) - y) == -(w * h))
        by (nonlinear_arith);
    assert(w * h >= 0) by (nonlinear_arith)
        requires
            w >= 0,
            h >= 0,
    ;
}

/// A rectangle of width zero or of height zero encloses no area, and
/// neither does either of its triangles.
pub proof fn lemma_degenerate_quad(origin: Point, width: u32, height: u32)
    requires
        width == 0 || height == 0,
    ensures
        outline_area2(quad(origin, width, height)) == 0,
        triangle_area2(quad(origin, width, height), RECT_INDICES@, 0) == 0,
        triangle_area2(quad(origin, width, height), RECT_INDICES@, 1) == 0,
{
    lemma_triangles_cover_quad(origin, width, height);
    assert(width * height == 0) by (nonlinear_arith)
        requires
            width == 0 || height == 0,
    ;
}

/// The horizontal coordinate is -1 at column 0 and 1 at column
/// `2 * HALF_WIDTH`, and adding one and scaling by `HALF_WIDTH` gives the
/// column back.
pub proof fn lemma_x_ndc_invertible(px: int)
    requires
        i64::MIN <= x_ndc_num(px) <= i64::MAX,
    ensures
        x_ndc_spec(0).is_whole(-1),
        x_ndc_spec(2 * HALF_WIDTH).is_whole(1),
        x_ndc_spec(px).plus_one_scaled_is(HALF_WIDTH as int, px),
{
}

/// The vertical coordinate is 1 at row 0 and -1 at row `2 * HALF_HEIGHT`,
/// and taking it from one and scaling by `HALF_HEIGHT` gives the row back.
pub proof fn lemma_y_ndc_invertible(py: int)
    requires
        i64::MIN <= y_ndc_num(py) <= i64::MAX,
    ensures
        y_ndc_spec(0).is_whole(1),
        y_ndc_spec(2 * HALF_HEIGHT).is_whole(-1),
        y_ndc_spec(py).one_minus_scaled_is(HALF_HEIGHT as int, py),
{
}

/// A pixel lies in the unit square of device space exactly if it lies in
/// the viewport, borders included, and every vertex has depth zero.
pub proof fn lemma_viewport_is_unit_square(px: int, py: int)
    requires
        i64::MIN <= x_ndc_num(px) <= i64::MAX,
        i64::MIN <= y_ndc_num(py) <= i64::MAX,
    ensures
        x_ndc_spec(px).in_unit_range() <==> 0 <= px <= 2 * HALF_WIDTH,
        y_ndc_spec(py).in_unit_range() <==> 0 <= py <= 2 * HALF_HEIGHT,
        corner(px, py).position[2].is_whole(0),
{
}

/// Normalization is linear: over a common denominator, the coordinates of
/// two pixels differ by as much as the pixels do, with rows counted against
/// the vertical axis.
pub proof fn lemma_ndc_linear(a: int, b: int)
    requires
        i64::MIN <= x_ndc_num(a) <= i64::MAX,
        i64::MIN <= x_ndc_num(b) <= i64::MAX,
        i64::MIN <= y_ndc_num(a) <= i64::MAX,
        i64::MIN <= y_ndc_num(b) <= i64::MAX,
    ensures
        x_ndc_spec(a).den == x_ndc_spec(b).den,
        x_ndc_spec(a).num - x_ndc_spec(b).num == a - b,
        y_ndc_spec(a).den == y_ndc_spec(b).den,
        y_ndc_spec(a).num - y_ndc_spec(b).num == b - a,
{
}

/// The vertex at pixel `(px, py)`, mid-gray.
fn vertex_at(px: i64, py: i64) -> (vertex: Vertex)
    requires
        i32::MIN <= px <= i32::MAX + u32::MAX,
        i32::MIN <= py <= i32::MAX + u32::MAX,
    ensures
        vertex == corner(px as int, py as int),
{
    let gray = Ratio { num: 1, den: 2 };
    let vertex = Vertex {
        position: [x_ndc(px), y_ndc(py), Ratio { num: 0, den: 1 }],
        color: [gray, gray, gray],
    };
    assert(vertex.position@ =~= corner(px as int, py as int).position@);
    assert(vertex.color@ =~= corner(px as int, py as int).color@);
    vertex
}

} // verus!
