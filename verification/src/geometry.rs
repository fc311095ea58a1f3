//! Integer 2D geometry: the side-of-line test that decides whether a pixel
//! lies inside a triangle.
//!
//! All geometry is exact integer arithmetic.  A point is on the "right" side
//! of a directed line (in image coordinates, y growing downward) exactly when
//! the 2D cross product of the edge vector with the vector to the point is
//! non-negative; "on the line counts as inside".

use vstd::prelude::*;

verus! {

/// The 2D cross product of the edge vector b - a with the vector p - a,
/// written out over the coordinates.  Its sign places p relative to the
/// directed line from a to b: non-negative means right of or on the line.
pub open spec fn edge_cross(ax: int, ay: int, bx: int, by: int, px: int, py: int) -> int {
    (bx - ax) * (py - ay) - (by - ay) * (px - ax)
}

/// What `right_of_line` decides: p is right of or on the directed line a -> b.
pub open spec fn right_of_line_spec(a: [i32; 2], b: [i32; 2], point: [i32; 2]) -> bool {
    edge_cross(
        a[0] as int,
        a[1] as int,
        b[0] as int,
        b[1] as int,
        point[0] as int,
        point[1] as int,
    ) >= 0
}

/// Rotates a 2D vector by 90 degrees (clockwise in image coordinates).
pub fn rotate_90(vec: [i32; 2]) -> (r: [i32; 2])
    requires
        vec[0] > i32::MIN,
    ensures
        r[0] == vec[1],
        r[1] == -vec[0],
{
    [vec[1], -vec[0]]
}

/// The dot product of two 2D vectors, in 32-bit arithmetic; the caller must
/// keep the intermediate products and the sum within `i32` range.
pub fn dot_product(vec_one: [i32; 2], vec_two: [i32; 2]) -> (r: i32)
    requires
        i32::MIN <= vec_one[0] * vec_two[0] <= i32::MAX,
        i32::MIN <= vec_one[1] * vec_two[1] <= i32::MAX,
        i32::MIN <= vec_one[0] * vec_two[0] + vec_one[1] * vec_two[1] <= i32::MAX,
    ensures
        r == vec_one[0] * vec_two[0] + vec_one[1] * vec_two[1],
{
    vec_one[0] * vec_two[0] + vec_one[1] * vec_two[1]
}

/// Squares a number, in 32-bit arithmetic.
pub fn square(num: i32) -> (r: i32)
    requires
        num * num <= i32::MAX,
    ensures
        r == num * num,
{
    proof {
        assert(num * num >= 0) by (nonlinear_arith);
    }
    num * num
}

/// The product of two values no larger than 2^32 in magnitude stays within
/// 2^64, so cross products of `i32` coordinate differences fit in an `i128`.
proof fn lemma_wide_mul_in_range(x: int, y: int)
    by (nonlinear_arith)
    requires
        -0x1_0000_0000 <= x <= 0x1_0000_0000,
        -0x1_0000_0000 <= y <= 0x1_0000_0000,
    ensures
        -0x1_0000_0000_0000_0000 <= x * y <= 0x1_0000_0000_0000_0000,
{
}

/// Decides whether `point` lies on the right side of (or exactly on) the
/// directed line from `a` to `b`: the dot product of the edge vector with the
/// 90-degree rotation of the vector to the point is non-negative.  Computed in
/// widened arithmetic so the test is exact for every `i32` coordinate.
pub fn right_of_line(a: [i32; 2], b: [i32; 2], point: [i32; 2]) -> (r: bool)
    ensures
        r == right_of_line_spec(a, b, point),
{
    let ex: i128 = (b[0] as i128) - (a[0] as i128);
    let ey: i128 = (b[1] as i128) - (a[1] as i128);
    let px: i128 = (point[0] as i128) - (a[0] as i128);
    let py: i128 = (point[1] as i128) - (a[1] as i128);
    proof {
        lemma_wide_mul_in_range(ex as int, py as int);
        lemma_wide_mul_in_range(ey as int, px as int);
    }
    ex * py - ey * px >= 0
}

} // verus!
