//! What holds of every draw call.

use crate::alpha_buffer::{
    lemma_cleared_resolves_to_background, sort_by_depth, Fragment, PixelState, OPAQUE_ALPHA,
};
use crate::fixed::{Fixed, ONE};
use crate::rasterizer::geometry::{
    all_beyond, depth_at, doubled_area, edge, is_backface_spec, perspective_weights, projectable,
    sample_at, screen_triangle, screen_weights, triangle_outside_screen_spec, weights_from, Sample,
};
use crate::rasterizer::{colour_to_u32, deposit, pixel_after_face, positions_of, Frame};
use crate::renderer::resolved_frame;
use crate::shader::{Shader, Varyings};
use crate::storage::Storage;
use crate::vector::{Vec2, Vec3, Vec4};
use vstd::prelude::*;

verus! {

/// A triangle whose three corners lie beyond one and the same plane of the
/// view volume leaves every pixel as it was.
pub proof fn lemma_offscreen_triangle_leaves_no_fragment<S: Shader>(
    cell: PixelState,
    frame: Frame,
    corners: Seq<Varyings>,
    plane: int,
    x: int,
    y: int,
    storage: &Storage,
    shader: &S,
)
    requires
        0 <= plane < 6,
        all_beyond(positions_of(corners), plane),
    ensures
        triangle_outside_screen_spec(positions_of(corners)),
        sample_at(frame.width, frame.height, frame.cull_backfaces, positions_of(corners), x, y)
            is None,
        pixel_after_face(cell, frame, corners, x, y, storage, shader) == cell,
{
}

/// Where triangles that face away are culled, such a triangle leaves every
/// pixel as it was.
pub proof fn lemma_backface_is_culled<S: Shader>(
    cell: PixelState,
    frame: Frame,
    corners: Seq<Varyings>,
    x: int,
    y: int,
    storage: &Storage,
    shader: &S,
)
    requires
        frame.cull_backfaces,
        is_backface_spec(positions_of(corners)),
    ensures
        sample_at(frame.width, frame.height, frame.cull_backfaces, positions_of(corners), x, y)
            is None,
        pixel_after_face(cell, frame, corners, x, y, storage, shader) == cell,
{
}

/// Where no triangle is culled for facing away, a triangle within the view
/// volume is rasterised however it is wound: what it offers at a pixel
/// follows from its coverage of the pixel alone.
pub proof fn lemma_backface_is_drawn_without_culling(
    width: int,
    height: int,
    positions: Seq<Vec4>,
    x: int,
    y: int,
)
    requires
        !triangle_outside_screen_spec(positions),
        projectable(positions),
    ensures
        sample_at(width, height, false, positions, x, y) == match screen_weights(
            screen_triangle(width, height, positions),
            x,
            y,
        ) {
            None => None,
            Some(bary) => match perspective_weights(bary, positions) {
                None => None,
                Some(weights) => Some(Sample { weights, depth: depth_at(positions, bary) }),
            },
        },
        !is_backface_spec(positions) ==> sample_at(width, height, true, positions, x, y)
            == sample_at(width, height, false, positions, x, y),
{
}

/// Of two opaque fragments offered to a pixel that holds no translucent
/// fragment and whose background lies behind the nearer of the two, the
/// nearer one gives the pixel its colour, whichever is offered first.
pub proof fn lemma_nearer_opaque_fragment_wins(
    cell: PixelState,
    near: Vec4,
    near_depth: Fixed,
    far: Vec4,
    far_depth: Fixed,
)
    requires
        cell.fragments.len() == 0,
        near_depth < cell.background.depth,
        near.w >= OPAQUE_ALPHA,
        far.w >= OPAQUE_ALPHA,
        near_depth < far_depth,
    ensures
        deposit(deposit(cell, Some(near), near_depth), Some(far), far_depth).resolve_colour() == (
        Vec3 { x: near.x, y: near.y, z: near.z }),
        deposit(deposit(cell, Some(far), far_depth), Some(near), near_depth).resolve_colour() == (
        Vec3 { x: near.x, y: near.y, z: near.z }),
{
    assert(cell.fragments =~= Seq::<Fragment>::empty());
    assert(sort_by_depth(Seq::<Fragment>::empty()) =~= Seq::<Fragment>::empty());
}

/// Of two opaque fragments offered to a cleared pixel, the nearer one gives
/// the pixel its colour, whichever is offered first.
pub proof fn lemma_nearer_opaque_fragment_wins_on_cleared_pixel(
    background_colour: Vec3,
    near: Vec4,
    near_depth: Fixed,
    far: Vec4,
    far_depth: Fixed,
)
    requires
        near.w >= OPAQUE_ALPHA,
        far.w >= OPAQUE_ALPHA,
        near_depth < far_depth,
    ensures
        deposit(
            deposit(PixelState::cleared(background_colour), Some(near), near_depth),
            Some(far),
            far_depth,
        ).resolve_colour() == (Vec3 { x: near.x, y: near.y, z: near.z }),
        deposit(
            deposit(PixelState::cleared(background_colour), Some(far), far_depth),
            Some(near),
            near_depth,
        ).resolve_colour() == (Vec3 { x: near.x, y: near.y, z: near.z }),
{
    lemma_nearer_opaque_fragment_wins(
        PixelState::cleared(background_colour),
        near,
        near_depth,
        far,
        far_depth,
    );
}

/// A frame that is handed out right after another, with nothing drawn in
/// between, shows the background colour at every pixel.
pub proof fn lemma_second_frame_is_background(cells: Seq<PixelState>, background_colour: Vec3)
    requires
        forall|i: int|
            0 <= i < cells.len() ==> #[trigger] cells[i] == PixelState::cleared(background_colour),
    ensures
        forall|i: int|
            0 <= i < cells.len() ==> #[trigger] resolved_frame(cells)[i] == colour_to_u32(
                background_colour,
            ),
{
    lemma_cleared_resolves_to_background(background_colour);
}

/// Shares of a whole are weights between 0 and 1 that add up to 1.
pub proof fn lemma_shares_sum_to_one(first: int, second: int, whole: int)
    requires
        0 <= first,
        0 <= second,
        first + second <= whole,
        0 < whole,
    ensures
        weights_from(first, second, whole).x == (first * ONE) / whole,
        weights_from(first, second, whole).y == (second * ONE) / whole,
        0 <= weights_from(first, second, whole).x <= ONE,
        0 <= weights_from(first, second, whole).y <= ONE,
        0 <= weights_from(first, second, whole).z <= ONE,
        weights_from(first, second, whole).x + weights_from(first, second, whole).y
            + weights_from(first, second, whole).z == ONE,
{
    let one = ONE as int;
    let a = (first * one) / whole;
    let b = (second * one) / whole;
    assert(0 <= a && 0 <= b && a + b <= one) by (nonlinear_arith)
        requires
            a == (first * one) / whole,
            b == (second * one) / whole,
            0 <= first,
            0 <= second,
            first + second <= whole,
            0 < whole,
            one == 65536,
    ;
}

/// The screen weights of a covered pixel lie between 0 and 1 and add up to
/// 1.
pub proof fn lemma_screen_weights_sum_to_one(s: Seq<Vec2>, x: int, y: int)
    ensures
        screen_weights(s, x, y) matches Some(bary) ==> {
            &&& 0 <= bary.x <= ONE
            &&& 0 <= bary.y <= ONE
            &&& 0 <= bary.z <= ONE
            &&& bary.x + bary.y + bary.z == ONE
        },
{
    let area = doubled_area(s);
    let first = edge(s[1], s[2], x * ONE, y * ONE);
    let second = edge(s[2], s[0], x * ONE, y * ONE);
    let third = area - first - second;
    if area > 0 && first >= 0 && second >= 0 && third >= 0 {
        lemma_shares_sum_to_one(first, second, area);
    } else if area < 0 && first <= 0 && second <= 0 && third <= 0 {
        lemma_shares_sum_to_one(-first, -second, -area);
    }
}

/// Where all three corners lie in front of the viewer, the weights for
/// interpolation in perspective exist, lie between 0 and 1 and add up to 1.
pub proof fn lemma_perspective_weights_sum_to_one(bary: Vec3, corners: Seq<Vec4>)
    requires
        0 <= bary.x,
        0 <= bary.y,
        0 <= bary.z,
        bary.x + bary.y + bary.z == ONE,
        corners[0].w > 0,
        corners[1].w > 0,
        corners[2].w > 0,
    ensures
        perspective_weights(bary, corners) matches Some(weights) && {
            &&& 0 <= weights.x <= ONE
            &&& 0 <= weights.y <= ONE
            &&& 0 <= weights.z <= ONE
            &&& weights.x + weights.y + weights.z == ONE
        },
{
    let wa = corners[0].w as int;
    let wb = corners[1].w as int;
    let wc = corners[2].w as int;
    let first = bary.x * wb * wc;
    let second = bary.y * wa * wc;
    let third = bary.z * wa * wb;
    assert(first >= 0 && second >= 0 && third >= 0 && first + second + third > 0)
        by (nonlinear_arith)
        requires
            first == bary.x * wb * wc,
            second == bary.y * wa * wc,
            third == bary.z * wa * wb,
            0 <= bary.x,
            0 <= bary.y,
            0 <= bary.z,
            bary.x + bary.y + bary.z == 65536,
            wa > 0,
            wb > 0,
            wc > 0,
    ;
    lemma_shares_sum_to_one(first, second, first + second + third);
}

} // verus!
