//! From clip space to pixels: culling, the viewport transform, coverage and
//! the weights of a triangle's corners at a pixel.

use crate::fixed::{clamp_to_fixed, floor_div, product, ratio, saturate, Fixed, ONE};
use crate::vector::{weigh, weighted_sum, Vec2, Vec3, Vec4};
use vstd::prelude::*;

verus! {

/// The greatest pixel column or row that a screen coordinate can name.
pub const MAX_PIXEL: usize = 32767;

/// Whether a clip-space position lies beyond one of the six planes of the
/// view volume: planes 0 and 1 are `x < -w` and `x > w`, planes 2 and 3 the
/// same for `y`, planes 4 and 5 for `z`.
pub open spec fn beyond(p: Vec4, plane: int) -> bool {
    if plane == 0 {
        p.x < -p.w
    } else if plane == 1 {
        p.x > p.w
    } else if plane == 2 {
        p.y < -p.w
    } else if plane == 3 {
        p.y > p.w
    } else if plane == 4 {
        p.z < -p.w
    } else {
        p.z > p.w
    }
}

/// Whether all three corners lie beyond the plane.
pub open spec fn all_beyond(corners: Seq<Vec4>, plane: int) -> bool {
    beyond(corners[0], plane) && beyond(corners[1], plane) && beyond(corners[2], plane)
}

/// Whether the three corners lie beyond one and the same plane of the view
/// volume, so that the triangle cannot be seen.
pub open spec fn triangle_outside_screen_spec(corners: Seq<Vec4>) -> bool {
    exists|plane: int| 0 <= plane < 6 && all_beyond(corners, plane)
}

/// The `z` component of the triangle's normal: the cross product of its
/// edges from the first corner, taken in clip space.
pub open spec fn normal_z(corners: Seq<Vec4>) -> int {
    (corners[1].x - corners[0].x) * (corners[2].y - corners[0].y) - (corners[1].y - corners[0].y)
        * (corners[2].x - corners[0].x)
}

/// Whether the triangle faces away from the viewer, who looks along
/// `(0, 0, 1)`.
pub open spec fn is_backface_spec(corners: Seq<Vec4>) -> bool {
    normal_z(corners) <= 0
}

/// Whether the triangle is left out: it is outside the view volume, or it
/// faces away and such triangles are to be culled.
pub open spec fn cull_triangle_spec(corners: Seq<Vec4>, cull_backfaces: bool) -> bool {
    triangle_outside_screen_spec(corners) || (cull_backfaces && is_backface_spec(corners))
}

/// Half of `size * offset / w` as a fixed-point number: where a clip-space
/// coordinate at `offset` from the edge of the view volume lands on a screen
/// of `size` pixels.
pub open spec fn screen_coordinate(size: int, offset: int, w: int) -> int {
    clamp_to_fixed(floor_div(size * offset * ONE, 2 * w))
}

/// The place of a clip-space position on a screen of `width` by `height`
/// pixels: `x` from -1 to 1 runs from the left edge to the right, `y` from
/// -1 to 1 from the bottom to the top, after division by `w`.
pub open spec fn to_screen(width: int, height: int, p: Vec4) -> Vec2 {
    Vec2 {
        x: screen_coordinate(width, p.x + p.w, p.w as int) as i32,
        y: screen_coordinate(height, p.w - p.y, p.w as int) as i32,
    }
}

/// The three corners on the screen.
pub open spec fn screen_triangle(width: int, height: int, corners: Seq<Vec4>) -> Seq<Vec2> {
    seq![
        to_screen(width, height, corners[0]),
        to_screen(width, height, corners[1]),
        to_screen(width, height, corners[2]),
    ]
}

/// Twice the signed area of the triangle `(px, py)`, `a`, `b`.
pub open spec fn edge(a: Vec2, b: Vec2, px: int, py: int) -> int {
    (a.x - px) * (b.y - py) - (b.x - px) * (a.y - py)
}

/// Twice the signed area of the triangle on the screen.
pub open spec fn doubled_area(s: Seq<Vec2>) -> int {
    edge(s[1], s[2], s[0].x as int, s[0].y as int)
}

/// The barycentric weights of the three corners at the pixel in column `x`
/// of row `y`, or `None` where the pixel lies outside the triangle or the
/// triangle has no area. The weights are the areas of the three triangles
/// that the pixel forms with two corners each, over the area of the whole;
/// the third is what the first two leave of 1.
pub open spec fn screen_weights(s: Seq<Vec2>, x: int, y: int) -> Option<Vec3> {
    let area = doubled_area(s);
    let first = edge(s[1], s[2], x * ONE, y * ONE);
    let second = edge(s[2], s[0], x * ONE, y * ONE);
    let third = area - first - second;
    if area > 0 && first >= 0 && second >= 0 && third >= 0 {
        Some(weights_from(first, second, area))
    } else if area < 0 && first <= 0 && second <= 0 && third <= 0 {
        Some(weights_from(-first, -second, -area))
    } else {
        None
    }
}

/// The weights `first / area` and `second / area` and what they leave of 1.
pub open spec fn weights_from(first: int, second: int, area: int) -> Vec3 {
    let a = clamp_to_fixed(floor_div(first * ONE, area));
    let b = clamp_to_fixed(floor_div(second * ONE, area));
    Vec3 { x: a as i32, y: b as i32, z: clamp_to_fixed(ONE - a - b) as i32 }
}

/// The weights for interpolation in perspective: each screen weight divided
/// by the `w` of its corner, and all of them divided by their sum; or `None`
/// where that sum is zero.
pub open spec fn perspective_weights(bary: Vec3, corners: Seq<Vec4>) -> Option<Vec3> {
    let first = bary.x * corners[1].w * corners[2].w;
    let second = bary.y * corners[0].w * corners[2].w;
    let third = bary.z * corners[0].w * corners[1].w;
    let sum = first + second + third;
    if sum == 0 {
        None
    } else {
        Some(weights_from(first, second, sum))
    }
}

/// The depth at a pixel: the clip-space `z` of the corners weighed by the
/// screen weights.
pub open spec fn depth_at(corners: Seq<Vec4>, bary: Vec3) -> Fixed {
    weighted_sum(corners[0].z as int, corners[1].z as int, corners[2].z as int, bary) as i32
}

/// What a triangle offers at a pixel: the weights of its corners for the
/// fragment stage, and its depth.
pub struct Sample {
    pub weights: Vec3,
    pub depth: Fixed,
}

/// Whether the three corners can be brought to the screen.
pub open spec fn projectable(corners: Seq<Vec4>) -> bool {
    corners[0].w != 0 && corners[1].w != 0 && corners[2].w != 0
}

/// What the triangle with the given clip-space corners offers at the pixel
/// in column `x` of row `y` of a screen of `width` by `height` pixels;
/// `None` where it is culled, cannot be brought to the screen, or does not
/// cover the pixel.
pub open spec fn sample_at(
    width: int,
    height: int,
    cull_backfaces: bool,
    corners: Seq<Vec4>,
    x: int,
    y: int,
) -> Option<Sample> {
    if cull_triangle_spec(corners, cull_backfaces) || !projectable(corners) {
        None
    } else {
        match screen_weights(screen_triangle(width, height, corners), x, y) {
            None => None,
            Some(bary) => match perspective_weights(bary, corners) {
                None => None,
                Some(weights) => Some(Sample { weights, depth: depth_at(corners, bary) }),
            },
        }
    }
}

/// A pixel that lies to one side of all three corners, in either direction,
/// is not covered.
pub proof fn lemma_outside_span_not_covered(s: Seq<Vec2>, x: int, y: int)
    requires
        s.len() == 3,
        ({
            ||| (s[0].x < x * ONE && s[1].x < x * ONE && s[2].x < x * ONE)
            ||| (s[0].x > x * ONE && s[1].x > x * ONE && s[2].x > x * ONE)
            ||| (s[0].y < y * ONE && s[1].y < y * ONE && s[2].y < y * ONE)
            ||| (s[0].y > y * ONE && s[1].y > y * ONE && s[2].y > y * ONE)
        }),
    ensures
        screen_weights(s, x, y) is None,
{
    let ax = s[0].x - x * ONE;
    let ay = s[0].y - y * ONE;
    let bx = s[1].x - x * ONE;
    let by = s[1].y - y * ONE;
    let cx = s[2].x - x * ONE;
    let cy = s[2].y - y * ONE;
    let area = doubled_area(s);
    let first = edge(s[1], s[2], x * ONE, y * ONE);
    let second = edge(s[2], s[0], x * ONE, y * ONE);
    let third = area - first - second;
    assert(first == bx * cy - cx * by);
    assert(second == cx * ay - ax * cy);
    assert(area == (bx - ax) * (cy - ay) - (cx - ax) * (by - ay));
    lemma_cross_identities(ax, ay, bx, by, cx, cy);
    assert(third == ax * by - bx * ay);
    if screen_weights(s, x, y) is Some {
        if (ax < 0 && bx < 0 && cx < 0) || (ax > 0 && bx > 0 && cx > 0) {
            lemma_signed_sum(first, second, third, ax, bx, cx);
        } else {
            lemma_signed_sum(first, second, third, ay, by, cy);
        }
        assert(area == 0);
    }
}

/// The three areas that a point forms with the corners add up to the area of
/// the triangle, and weigh the corners to the point itself.
proof fn lemma_cross_identities(ax: int, ay: int, bx: int, by: int, cx: int, cy: int)
    ensures
        (bx - ax) * (cy - ay) - (cx - ax) * (by - ay) == (bx * cy - cx * by) + (cx * ay - ax * cy)
            + (ax * by - bx * ay),
        (bx * cy - cx * by) * ax + (cx * ay - ax * cy) * bx + (ax * by - bx * ay) * cx == 0,
        (bx * cy - cx * by) * ay + (cx * ay - ax * cy) * by + (ax * by - bx * ay) * cy == 0,
{
    assert((bx - ax) * (cy - ay) - (cx - ax) * (by - ay) == (bx * cy - cx * by) + (cx * ay - ax
        * cy) + (ax * by - bx * ay)) by (nonlinear_arith);
    assert((bx * cy - cx * by) * ax + (cx * ay - ax * cy) * bx + (ax * by - bx * ay) * cx == 0)
        by (nonlinear_arith);
    assert((bx * cy - cx * by) * ay + (cx * ay - ax * cy) * by + (ax * by - bx * ay) * cy == 0)
        by (nonlinear_arith);
}

/// Weights of one sign cannot weigh numbers of one sign to zero, unless all
/// weights are zero.
proof fn lemma_signed_sum(e1: int, e2: int, e3: int, u1: int, u2: int, u3: int)
    requires
        e1 * u1 + e2 * u2 + e3 * u3 == 0,
        (e1 >= 0 && e2 >= 0 && e3 >= 0) || (e1 <= 0 && e2 <= 0 && e3 <= 0),
        (u1 > 0 && u2 > 0 && u3 > 0) || (u1 < 0 && u2 < 0 && u3 < 0),
    ensures
        e1 == 0 && e2 == 0 && e3 == 0,
{
    assert(e1 == 0 && e2 == 0 && e3 == 0) by (nonlinear_arith)
        requires
            e1 * u1 + e2 * u2 + e3 * u3 == 0,
            (e1 >= 0 && e2 >= 0 && e3 >= 0) || (e1 <= 0 && e2 <= 0 && e3 <= 0),
            (u1 > 0 && u2 > 0 && u3 > 0) || (u1 < 0 && u2 < 0 && u3 < 0),
    ;
}

/// Computes `beyond`.
fn is_beyond(p: &Vec4, plane: u8) -> (b: bool)
    ensures
        b == beyond(*p, plane as int),
{
    let x = p.x as i64;
    let y = p.y as i64;
    let z = p.z as i64;
    let w = p.w as i64;
    if plane == 0 {
        x < -w
    } else if plane == 1 {
        x > w
    } else if plane == 2 {
        y < -w
    } else if plane == 3 {
        y > w
    } else if plane == 4 {
        z < -w
    } else {
        z > w
    }
}

/// Whether the triangle lies beyond one plane of the view volume with all
/// three corners.
pub fn triangle_outside_screen(vertex_positions: &[Vec4; 3]) -> (outside: bool)
    ensures
        outside == triangle_outside_screen_spec(vertex_positions@),
{
    let mut plane: u8 = 0;
    while plane < 6
        invariant
            plane <= 6,
            forall|k: int| 0 <= k < plane ==> !all_beyond(vertex_positions@, k),
        decreases 6 - plane,
    {
        if is_beyond(&vertex_positions[0], plane) && is_beyond(&vertex_positions[1], plane)
            && is_beyond(&vertex_positions[2], plane) {
            assert(all_beyond(vertex_positions@, plane as int));
            return true;
        }
        plane += 1;
    }
    false
}

/// The cross product `ux * vy - vx * uy` of two differences of fixed-point
/// numbers.
fn cross(ux: i64, uy: i64, vx: i64, vy: i64) -> (r: i128)
    requires
        -0x1_0000_0000 <= ux <= 0x1_0000_0000,
        -0x1_0000_0000 <= uy <= 0x1_0000_0000,
        -0x1_0000_0000 <= vx <= 0x1_0000_0000,
        -0x1_0000_0000 <= vy <= 0x1_0000_0000,
    ensures
        r == ux * vy - vx * uy,
        -0x2_0000_0000_0000_0000 <= r <= 0x2_0000_0000_0000_0000,
{
    assert(-0x1_0000_0000_0000_0000 <= ux * vy <= 0x1_0000_0000_0000_0000) by (nonlinear_arith)
        requires
            -0x1_0000_0000 <= ux <= 0x1_0000_0000,
            -0x1_0000_0000 <= vy <= 0x1_0000_0000,
    ;
    assert(-0x1_0000_0000_0000_0000 <= vx * uy <= 0x1_0000_0000_0000_0000) by (nonlinear_arith)
        requires
            -0x1_0000_0000 <= vx <= 0x1_0000_0000,
            -0x1_0000_0000 <= uy <= 0x1_0000_0000,
    ;
    (ux as i128) * (vy as i128) - (vx as i128) * (uy as i128)
}

/// Whether the triangle faces away from the viewer.
pub fn is_backface(vertex_positions: &[Vec4; 3]) -> (away: bool)
    ensures
        away == is_backface_spec(vertex_positions@),
{
    let a = &vertex_positions[0];
    let b = &vertex_positions[1];
    let c = &vertex_positions[2];
    let normal = cross(
        b.x as i64 - a.x as i64,
        b.y as i64 - a.y as i64,
        c.x as i64 - a.x as i64,
        c.y as i64 - a.y as i64,
    );
    normal <= 0
}

/// Whether the triangle is left out of the drawing.
pub fn cull_triangle(vertex_positions: &[Vec4; 3], cull_backfaces: bool) -> (culled: bool)
    ensures
        culled == cull_triangle_spec(vertex_positions@, cull_backfaces),
{
    triangle_outside_screen(vertex_positions) || (cull_backfaces && is_backface(vertex_positions))
}

/// Computes `screen_coordinate`.
fn place(size: usize, offset: i64, w: Fixed) -> (r: Fixed)
    requires
        w != 0,
        -0x1_0000_0000 <= offset <= 0x1_0000_0000,
    ensures
        r == screen_coordinate(size as int, offset as int, w as int),
{
    assert(-0x1_0000_0000_0000_0000_0000_0000 <= size * offset
        <= 0x1_0000_0000_0000_0000_0000_0000) by (nonlinear_arith)
        requires
            0 <= size <= 0xffff_ffff_ffff_ffff,
            -0x1_0000_0000 <= offset <= 0x1_0000_0000,
    ;
    ratio((size as i128) * (offset as i128), 2 * (w as i128))
}

/// Brings a clip-space position to the screen.
pub fn project(width: usize, height: usize, position: &Vec4) -> (point: Vec2)
    requires
        position.w != 0,
    ensures
        point == to_screen(width as int, height as int, *position),
{
    let x = position.x as i64;
    let y = position.y as i64;
    let w = position.w as i64;
    Vec2 { x: place(width, x + w, position.w), y: place(height, w - y, position.w) }
}

/// Computes `weights_from`.
fn weights(first: i128, second: i128, area: i128) -> (w: Vec3)
    requires
        area != 0,
        -0x4000_0000_0000_0000_0000_0000_0000 < first < 0x4000_0000_0000_0000_0000_0000_0000,
        -0x4000_0000_0000_0000_0000_0000_0000 < second < 0x4000_0000_0000_0000_0000_0000_0000,
        -0x4000_0000_0000_0000_0000_0000_0000 < area < 0x4000_0000_0000_0000_0000_0000_0000,
    ensures
        w == weights_from(first as int, second as int, area as int),
{
    let a = ratio(first, area);
    let b = ratio(second, area);
    Vec3 { x: a, y: b, z: saturate((ONE as i128) - (a as i128) - (b as i128)) }
}

/// The barycentric weights of the corners of a triangle on the screen at
/// the pixel in column `x` of row `y`, if the triangle covers the pixel.
pub fn calculate_barycentric_coordinates(vertex_positions: &[Vec2; 3], x: usize, y: usize) -> (bary:
    Option<Vec3>)
    ensures
        bary == screen_weights(vertex_positions@, x as int, y as int),
{
    let a = vertex_positions[0];
    let b = vertex_positions[1];
    let c = vertex_positions[2];
    if x > MAX_PIXEL || y > MAX_PIXEL {
        proof {
            lemma_outside_span_not_covered(vertex_positions@, x as int, y as int);
        }
        return None;
    }
    let px = (x as i64) * 65536;
    let py = (y as i64) * 65536;
    let ax = a.x as i64;
    let ay = a.y as i64;
    let bx = b.x as i64;
    let by = b.y as i64;
    let cx = c.x as i64;
    let cy = c.y as i64;
    let area = cross(bx - ax, by - ay, cx - ax, cy - ay);
    let first = cross(bx - px, by - py, cx - px, cy - py);
    let second = cross(cx - px, cy - py, ax - px, ay - py);
    let third = area - first - second;
    if area > 0 && first >= 0 && second >= 0 && third >= 0 {
        Some(weights(first, second, area))
    } else if area < 0 && first <= 0 && second <= 0 && third <= 0 {
        Some(weights(-first, -second, -area))
    } else {
        None
    }
}

/// The product of three fixed-point numbers.
fn triple(a: Fixed, b: Fixed, c: Fixed) -> (r: i128)
    ensures
        r == a * b * c,
        -0x2000_0000_0000_0000_0000_0000 <= r <= 0x2000_0000_0000_0000_0000_0000,
{
    let ab = product(a, b);
    assert(-0x2000_0000_0000_0000_0000_0000 <= ab * c <= 0x2000_0000_0000_0000_0000_0000)
        by (nonlinear_arith)
        requires
            -0x4000_0000_0000_0000 <= ab <= 0x4000_0000_0000_0000,
            -0x8000_0000 <= c <= 0x7fff_ffff,
    ;
    ab * (c as i128)
}

/// The weights for interpolation in perspective that belong to the screen
/// weights `bary`.
pub fn perspective(bary: Vec3, vertex_positions: &[Vec4; 3]) -> (w: Option<Vec3>)
    ensures
        w == perspective_weights(bary, vertex_positions@),
{
    let wa = vertex_positions[0].w;
    let wb = vertex_positions[1].w;
    let wc = vertex_positions[2].w;
    let first = triple(bary.x, wb, wc);
    let second = triple(bary.y, wa, wc);
    let third = triple(bary.z, wa, wb);
    let sum = first + second + third;
    if sum == 0 {
        None
    } else {
        Some(weights(first, second, sum))
    }
}

/// The depth of the triangle at a pixel with the screen weights `bary`.
pub fn get_frag_depth(vertex_positions: &[Vec4; 3], bary: Vec3) -> (depth: Fixed)
    ensures
        depth == depth_at(vertex_positions@, bary),
{
    weigh(vertex_positions[0].z, vertex_positions[1].z, vertex_positions[2].z, bary)
}

} // verus!
