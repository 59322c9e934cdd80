//! Footprints of the bodies, and the tests the frame update makes on them.
//!
//! A nominal position is the centre of a body. Its adjusted position is the
//! top-left corner of its footprint: the footprint extends from there to the
//! right (left edge included, right edge excluded) and downwards (top edge
//! included, bottom edge excluded).

use core::ops::Neg;
use vstd::prelude::*;
use crate::fixed::{clamp, Fixed, ONE};
use crate::vect::Vect;

verus! {

/// Width of a paddle, and both width and height of the ball.
pub const WIDTH: i64 = 10 * ONE;

/// Height of a paddle.
pub const HEIGHT: i64 = 40 * ONE;

/// Distance from the top and bottom of the window to where paddles wrap.
pub const TOP_MARGIN: i64 = 100 * ONE;

/// Distance from the sides of the window to the goal lines.
pub const SIDE_MARGIN: i64 = 100 * ONE;

/// Top-left corner of the ball's footprint.
pub open spec fn spec_adjust_ball(ball: (int, int)) -> (int, int) {
    (clamp(ball.0 - WIDTH / 2), clamp(ball.1 + WIDTH / 2))
}

/// Top-left corner of a paddle's footprint.
pub open spec fn spec_adjust_player(player: (int, int)) -> (int, int) {
    (clamp(player.0 - WIDTH / 2), clamp(player.1 + HEIGHT / 2))
}

/// Whether the footprints of a paddle and of the ball, given by their nominal
/// positions, share a point: their horizontal extents intersect, and so do
/// their vertical extents.
pub open spec fn spec_is_overlapping(player: (int, int), ball: (int, int)) -> bool {
    let p = spec_adjust_player(player);
    let b = spec_adjust_ball(ball);
    &&& b.0 < clamp(p.0 + WIDTH)
    &&& p.0 < clamp(b.0 + WIDTH)
    &&& clamp(p.1 - HEIGHT) < b.1
    &&& clamp(b.1 - WIDTH) < p.1
}

/// Whether the ball, given by its adjusted position, reaches above the upper
/// edge of the field or below its lower edge.
pub open spec fn spec_touching_ceiling(ball: (int, int), half_height: int) -> bool {
    clamp(ball.1 - WIDTH) < -half_height || ball.1 > half_height
}

/// Whether the left edge of the ball, given by its adjusted position, is
/// beyond the left goal line.
pub open spec fn spec_passed_left_side(ball: (int, int), half_width: int) -> bool {
    ball.0 < clamp(-half_width - SIDE_MARGIN)
}

/// Whether the right edge of the ball, given by its adjusted position, is
/// beyond the right goal line.
pub open spec fn spec_passed_right_side(ball: (int, int), half_width: int) -> bool {
    clamp(ball.0 + WIDTH) > clamp(half_width + SIDE_MARGIN)
}

/// The adjusted position of the ball at nominal position `ball`.
pub fn adjust_ball(ball: Vect) -> (r: Vect)
    ensures
        r@ == spec_adjust_ball(ball@),
{
    let half = Fixed::from_raw(WIDTH / 2);
    Vect(ball.0 - half, ball.1 + half)
}

/// The adjusted position of the paddle at nominal position `player`.
pub fn adjust_player(player: Vect) -> (r: Vect)
    ensures
        r@ == spec_adjust_player(player@),
{
    Vect(player.0 - Fixed::from_raw(WIDTH / 2), player.1 + Fixed::from_raw(HEIGHT / 2))
}

/// Tests whether the paddle at nominal position `player` and the ball at
/// nominal position `ball` overlap.
pub fn is_overlapping(player: Vect, ball: Vect) -> (r: bool)
    ensures
        r == spec_is_overlapping(player@, ball@),
{
    let player = adjust_player(player);
    let ball = adjust_ball(ball);
    let width = Fixed::from_raw(WIDTH);
    let height = Fixed::from_raw(HEIGHT);

    let x_overlapping = (ball.0.raw() >= player.0.raw() && ball.0.raw() < (player.0 + width).raw())
        || (player.0.raw() >= ball.0.raw() && player.0.raw() < (ball.0 + width).raw());

    let y_overlapping = (ball.1.raw() <= player.1.raw() && ball.1.raw() > (player.1 - height).raw())
        || (player.1.raw() <= ball.1.raw() && player.1.raw() > (ball.1 - width).raw());

    x_overlapping && y_overlapping
}

/// Tests whether the ball at adjusted position `ball` touches the ceiling or
/// the floor of a field that extends `half_height` above and below the centre.
pub fn touching_ceiling(ball: Vect, half_height: Fixed) -> (r: bool)
    ensures
        r == spec_touching_ceiling(ball@, half_height@),
{
    (ball.1 - Fixed::from_raw(WIDTH)).raw() < half_height.neg().raw() || ball.1.raw() > half_height.raw()
}

/// Tests whether the ball at adjusted position `ball` has passed the left goal
/// line of a field that extends `half_width` to each side of the centre.
pub fn passed_left_side(ball: Vect, half_width: Fixed) -> (r: bool)
    ensures
        r == spec_passed_left_side(ball@, half_width@),
{
    ball.0.raw() < (half_width.neg() - Fixed::from_raw(SIDE_MARGIN)).raw()
}

/// Tests whether the ball at adjusted position `ball` has passed the right
/// goal line of a field that extends `half_width` to each side of the centre.
pub fn passed_right_side(ball: Vect, half_width: Fixed) -> (r: bool)
    ensures
        r == spec_passed_right_side(ball@, half_width@),
{
    (ball.0 + Fixed::from_raw(WIDTH)).raw() > (half_width + Fixed::from_raw(SIDE_MARGIN)).raw()
}

} // verus!
