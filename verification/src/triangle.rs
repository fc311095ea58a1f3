//! The triangle and its rasterizer.
//!
//! A triangle is three vertices in a fixed winding plus a uniform fill
//! colour.  Drawing scans every pixel of the target frame and paints those
//! that pass the inside test.  The test uses "right of or on" for all three
//! directed edges, so only clockwise-wound triangles (in image coordinates,
//! y growing downward) paint anything; a counter-clockwise triangle
//! rasterizes as empty, and that directional dependency is a documented
//! contract of the type, proved below.

use vstd::arithmetic::div_mod::lemma_fundamental_div_mod;
use vstd::arithmetic::div_mod::lemma_mod_bound;
use vstd::prelude::*;

use crate::frame::Colour;
use crate::frame::Frame;
use crate::frame::lemma_row_major_index_in_range;
use crate::frame::lemma_row_major_index_injective;
use crate::geometry::edge_cross;
use crate::geometry::right_of_line;

verus! {

/// Three vertices in a fixed winding and the colour every interior pixel is
/// filled with.  Immutable after construction.
pub struct Triangle {
    pub a: [i32; 2],
    pub b: [i32; 2],
    pub c: [i32; 2],
    pub colour: Colour,
}

impl Triangle {
    pub fn new(a: [i32; 2], b: [i32; 2], c: [i32; 2], colour: Colour) -> (t: Triangle)
        ensures
            t.a == a,
            t.b == b,
            t.c == c,
            t.colour == colour,
    {
        Triangle { a, b, c, colour }
    }

    /// The inside test over plain integer coordinates: the point is right of
    /// (or on) all three directed edges a->b, b->c and c->a.
    pub open spec fn contains_coords(self, x: int, y: int) -> bool {
        &&& edge_cross(
            self.a[0] as int,
            self.a[1] as int,
            self.b[0] as int,
            self.b[1] as int,
            x,
            y,
        ) >= 0
        &&& edge_cross(
            self.b[0] as int,
            self.b[1] as int,
            self.c[0] as int,
            self.c[1] as int,
            x,
            y,
        ) >= 0
        &&& edge_cross(
            self.c[0] as int,
            self.c[1] as int,
            self.a[0] as int,
            self.a[1] as int,
            x,
            y,
        ) >= 0
    }

    /// The inside test on a point given as a coordinate pair.
    pub open spec fn contains(self, point: [i32; 2]) -> bool {
        self.contains_coords(point[0] as int, point[1] as int)
    }

    /// Twice the signed area of the triangle.  Positive for the clockwise
    /// winding this rasterizer paints, negative for counter-clockwise.
    pub open spec fn doubled_signed_area(self) -> int {
        edge_cross(
            self.a[0] as int,
            self.a[1] as int,
            self.b[0] as int,
            self.b[1] as int,
            self.c[0] as int,
            self.c[1] as int,
        )
    }

    /// Decides whether `point` lies inside the triangle (boundary included):
    /// on the consistent side of all three directed edges.
    pub fn is_inside(&self, point: [i32; 2]) -> (r: bool)
        ensures
            r == self.contains(point),
    {
        right_of_line(self.a, self.b, point) && right_of_line(self.b, self.c, point)
            && right_of_line(self.c, self.a, point)
    }

    /// What drawing does to a frame: the dimensions are kept, a pixel whose
    /// coordinate passes the inside test holds the triangle's colour, and
    /// every other pixel keeps its old colour.
    pub open spec fn draws_onto(self, before: Frame, after: Frame) -> bool {
        &&& after.width == before.width
        &&& after.height == before.height
        &&& after.pixel_arr@.len() == before.pixel_arr@.len()
        &&& forall|x: int, y: int|
            0 <= x < before.width && 0 <= y < before.height ==> #[trigger] after.pixel(x, y)
                == (if self.contains_coords(x, y) {
                self.colour
            } else {
                before.pixel(x, y)
            })
    }

    /// Fills every pixel of the frame that lies inside the triangle with the
    /// triangle's colour, by a brute-force scan of all coordinates.  Geometry
    /// outside the frame is silently clipped: those coordinates are simply
    /// never visited.
    pub fn draw(&self, frame: &mut Frame)
        requires
            old(frame).wf(),
            old(frame).width <= i32::MAX,
            old(frame).height <= i32::MAX,
        ensures
            final(frame).wf(),
            self.draws_onto(*old(frame), *final(frame)),
    {
        let ghost orig = *frame;
        let width: usize = frame.width;
        let height: usize = frame.height;
        let mut y: usize = 0;
        while y < height
            invariant
                frame.wf(),
                orig.wf(),
                frame.width == width,
                frame.height == height,
                orig.width == width,
                orig.height == height,
                width <= i32::MAX,
                height <= i32::MAX,
                frame.pixel_arr@.len() == orig.pixel_arr@.len(),
                y <= height,
                forall|xx: int, yy: int|
                    0 <= xx < width && 0 <= yy < y ==> #[trigger] frame.pixel(xx, yy)
                        == (if self.contains_coords(xx, yy) {
                        self.colour
                    } else {
                        orig.pixel(xx, yy)
                    }),
                forall|xx: int, yy: int|
                    0 <= xx < width && y <= yy < height ==> #[trigger] frame.pixel(xx, yy)
                        == orig.pixel(xx, yy),
            decreases height - y,
        {
            let mut x: usize = 0;
            while x < width
                invariant
                    frame.wf(),
                    orig.wf(),
                    frame.width == width,
                    frame.height == height,
                    orig.width == width,
                    orig.height == height,
                    width <= i32::MAX,
                    height <= i32::MAX,
                    frame.pixel_arr@.len() == orig.pixel_arr@.len(),
                    x <= width,
                    y < height,
                    forall|xx: int, yy: int|
                        0 <= xx < width && 0 <= yy < y ==> #[trigger] frame.pixel(xx, yy)
                            == (if self.contains_coords(xx, yy) {
                            self.colour
                        } else {
                            orig.pixel(xx, yy)
                        }),
                    forall|xx: int|
                        0 <= xx < x ==> #[trigger] frame.pixel(xx, y as int)
                            == (if self.contains_coords(xx, y as int) {
                            self.colour
                        } else {
                            orig.pixel(xx, y as int)
                        }),
                    forall|xx: int|
                        x <= xx < width ==> #[trigger] frame.pixel(xx, y as int)
                            == orig.pixel(xx, y as int),
                    forall|xx: int, yy: int|
                        0 <= xx < width && y < yy < height ==> #[trigger] frame.pixel(xx, yy)
                            == orig.pixel(xx, yy),
                decreases width - x,
            {
                let ghost prev = *frame;
                let inside: bool = self.is_inside([x as i32, y as i32]);
                if inside {
                    frame.write_pixel(x, y, self.colour);
                }
                proof {
                    assert(inside == self.contains_coords(x as int, y as int));
                    assert forall|xx: int, yy: int|
                        0 <= xx < width && 0 <= yy < height implies #[trigger] frame.pixel(xx, yy)
                        == (if xx == x as int && yy == y as int && inside {
                        self.colour
                    } else {
                        prev.pixel(xx, yy)
                    }) by {
                        lemma_row_major_index_in_range(width as int, height as int, xx, yy);
                        lemma_row_major_index_in_range(
                            width as int,
                            height as int,
                            x as int,
                            y as int,
                        );
                        if yy * (width as int) + xx == (y as int) * (width as int) + (x as int) {
                            lemma_row_major_index_injective(
                                width as int,
                                xx,
                                yy,
                                x as int,
                                y as int,
                            );
                        }
                    }
                }
                x = x + 1;
            }
            y = y + 1;
        }
    }
}

/// The three edge cross products of a triangle at any point sum to a
/// constant that does not depend on the point: twice the triangle's signed
/// area.
#[verifier::rlimit(60)]
proof fn lemma_edge_cross_sum(
    ax: int,
    ay: int,
    bx: int,
    by: int,
    cx: int,
    cy: int,
    px: int,
    py: int,
)
    by (nonlinear_arith)
    ensures
        edge_cross(ax, ay, bx, by, px, py) + edge_cross(bx, by, cx, cy, px, py) + edge_cross(
            cx,
            cy,
            ax,
            ay,
            px,
            py,
        ) == edge_cross(ax, ay, bx, by, cx, cy),
{
}

/// Swapping two vertices reverses the winding order and negates the signed
/// area: the reversal of a clockwise triangle is counter-clockwise.
pub proof fn lemma_reversed_winding_negates_area(t: Triangle, reversed: Triangle)
    requires
        reversed.a == t.a,
        reversed.b == t.c,
        reversed.c == t.b,
        reversed.colour == t.colour,
    ensures
        reversed.doubled_signed_area() == -t.doubled_signed_area(),
{
    assert(edge_cross(
        t.a[0] as int,
        t.a[1] as int,
        t.c[0] as int,
        t.c[1] as int,
        t.b[0] as int,
        t.b[1] as int,
    ) == -edge_cross(
        t.a[0] as int,
        t.a[1] as int,
        t.b[0] as int,
        t.b[1] as int,
        t.c[0] as int,
        t.c[1] as int,
    )) by (nonlinear_arith);
}

/// Directional contract of the rasterizer: a triangle whose vertices wind
/// counter-clockwise (negative doubled signed area) contains no point at
/// all, so it rasterizes as empty.
pub proof fn lemma_counter_clockwise_contains_nothing(t: Triangle, x: int, y: int)
    requires
        t.doubled_signed_area() < 0,
    ensures
        !t.contains_coords(x, y),
{
    lemma_edge_cross_sum(
        t.a[0] as int,
        t.a[1] as int,
        t.b[0] as int,
        t.b[1] as int,
        t.c[0] as int,
        t.c[1] as int,
        x,
        y,
    );
}

/// A positive product of non-negative factors has positive factors.
proof fn lemma_positive_product(w: int, h: int)
    by (nonlinear_arith)
    requires
        w >= 0,
        h >= 0,
        w * h > 0,
    ensures
        w > 0,
        h > 0,
{
}

/// The quotient of a flat row-major index by the width stays below the
/// height.
proof fn lemma_quotient_bounds(w: int, h: int, q: int, r: int)
    by (nonlinear_arith)
    requires
        w > 0,
        0 <= w * q + r < w * h,
        0 <= r < w,
    ensures
        0 <= q < h,
{
}

/// Drawing a counter-clockwise triangle leaves every pixel of the frame
/// unchanged: the painted set of such a triangle is empty.
pub proof fn lemma_counter_clockwise_draw_is_noop(t: Triangle, before: Frame, after: Frame)
    requires
        before.wf(),
        t.doubled_signed_area() < 0,
        t.draws_onto(before, after),
    ensures
        after.pixel_arr@ == before.pixel_arr@,
{
    let w = before.width as int;
    let h = before.height as int;
    assert forall|i: int| 0 <= i < before.pixel_arr@.len() implies after.pixel_arr@[i]
        == before.pixel_arr@[i] by {
        lemma_positive_product(w, h);
        lemma_fundamental_div_mod(i, w);
        lemma_mod_bound(i, w);
        let x = i % w;
        let y = i / w;
        lemma_quotient_bounds(w, h, y, x);
        lemma_counter_clockwise_contains_nothing(t, x, y);
        assert(y * w + x == i) by (nonlinear_arith)
            requires
                i == w * y + x,
        ;
        assert(after.pixel(x, y) == before.pixel(x, y));
    }
    assert(after.pixel_arr@ =~= before.pixel_arr@);
}

} // verus!
