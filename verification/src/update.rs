//! One frame of the game.
//!
//! A frame moves the three bodies, lets a paddle deflect the ball, bounces the
//! ball off ceiling and floor, counts a goal and puts a fresh ball into play,
//! and wraps the paddles around the vertical edges, in this order.

use core::ops::Neg;
use vstd::prelude::*;
use crate::ball::{respawn, roll, spec_respawn, Rolls};
use crate::fixed::{clamp, div_toward_zero, Fixed};
use crate::geometry::{
    adjust_ball, is_overlapping, passed_left_side, passed_right_side, spec_adjust_ball,
    spec_is_overlapping, spec_passed_left_side, spec_passed_right_side, spec_touching_ceiling,
    touching_ceiling, HEIGHT, TOP_MARGIN,
};
use crate::model::{Model, ModelView, Window};
use crate::vect::{vect_add, Vect};

verus! {

/// Numerator of the rate, four fifths, at which a deflecting paddle hands its
/// vertical speed to the ball.
pub const SPEED_TRANSFER_NUMERATOR: i64 = 4;

/// Denominator of that rate.
pub const SPEED_TRANSFER_DENOMINATOR: i64 = 5;

/// The share of a paddle's vertical speed that a deflected ball takes over,
/// rounded toward zero.
pub open spec fn spec_transfer(paddle_speed: int) -> int {
    div_toward_zero(paddle_speed * SPEED_TRANSFER_NUMERATOR, SPEED_TRANSFER_DENOMINATOR as int)
}

/// The vertical speed that the ball keeps: all of it.
pub open spec fn spec_ball_speed_limit(y_speed: int) -> int {
    y_speed
}

/// Every body moved by its velocity.
pub open spec fn spec_integrate(s: ModelView) -> ModelView {
    ModelView {
        ball_pos: vect_add(s.ball_pos, s.ball_v),
        p1_pos: vect_add(s.p1_pos, s.p1_v),
        p2_pos: vect_add(s.p2_pos, s.p2_v),
        ..s
    }
}

/// The ball deflected by a paddle of velocity `paddle_v`: its horizontal
/// velocity inverted, its vertical velocity raised by the paddle's share, and
/// the ball moved once more by the new velocity.
pub open spec fn spec_deflect(s: ModelView, paddle_v: (int, int)) -> ModelView {
    let ball_v = (-s.ball_v.0, clamp(s.ball_v.1 + spec_transfer(paddle_v.1)));
    ModelView { ball_v, ball_pos: vect_add(s.ball_pos, ball_v), ..s }
}

/// The ball deflected by the first paddle if that overlaps it, else by the
/// second if that does, else left alone.
pub open spec fn spec_collide(s: ModelView) -> ModelView {
    if spec_is_overlapping(s.p1_pos, s.ball_pos) {
        spec_deflect(s, s.p1_v)
    } else if spec_is_overlapping(s.p2_pos, s.ball_pos) {
        spec_deflect(s, s.p2_v)
    } else {
        s
    }
}

/// The ball's vertical velocity passed through the speed limit.
pub open spec fn spec_limit(s: ModelView) -> ModelView {
    ModelView { ball_v: (s.ball_v.0, spec_ball_speed_limit(s.ball_v.1)), ..s }
}

/// The ball's vertical velocity inverted if the ball touches ceiling or floor.
pub open spec fn spec_bounce(s: ModelView, half_height: int) -> ModelView {
    if spec_touching_ceiling(spec_adjust_ball(s.ball_pos), half_height) {
        ModelView { ball_v: (s.ball_v.0, -s.ball_v.1), ..s }
    } else {
        s
    }
}

/// The frame up to the point where goals are looked for: bodies moved, ball
/// deflected, limited and bounced.
pub open spec fn spec_play(s: ModelView, half_height: int) -> ModelView {
    spec_bounce(spec_limit(spec_collide(spec_integrate(s))), half_height)
}

/// Whether the ball is past the left goal line.
pub open spec fn spec_left_goal(s: ModelView, half_width: int) -> bool {
    spec_passed_left_side(spec_adjust_ball(s.ball_pos), half_width)
}

/// A goal for the second player if the ball is past the left goal line: one
/// more on their score, and a fresh ball decided by `rolls`.
pub open spec fn spec_score_left(s: ModelView, half_width: int, rolls: Rolls) -> ModelView {
    if spec_left_goal(s, half_width) {
        ModelView {
            p2_score: s.p2_score + 1,
            ball_pos: spec_respawn(rolls).0,
            ball_v: spec_respawn(rolls).1,
            ..s
        }
    } else {
        s
    }
}

/// Whether the ball is past the right goal line.
pub open spec fn spec_right_goal(s: ModelView, half_width: int) -> bool {
    spec_passed_right_side(spec_adjust_ball(s.ball_pos), half_width)
}

/// A goal for the first player if the ball is past the right goal line: one
/// more on their score, and a fresh ball decided by `rolls`.
pub open spec fn spec_score_right(s: ModelView, half_width: int, rolls: Rolls) -> ModelView {
    if spec_right_goal(s, half_width) {
        ModelView {
            p1_score: s.p1_score + 1,
            ball_pos: spec_respawn(rolls).0,
            ball_v: spec_respawn(rolls).1,
            ..s
        }
    } else {
        s
    }
}

/// Goals looked for on the left, then on the right. Each side has its own
/// rolls for the fresh ball.
pub open spec fn spec_score(s: ModelView, half_width: int, left: Rolls, right: Rolls) -> ModelView {
    spec_score_right(spec_score_left(s, half_width, left), half_width, right)
}

/// Whether the right goal line is found passed once the left has been looked
/// at; a fresh ball stands at the centre whatever was rolled for it.
pub open spec fn spec_right_goal_after_left(s: ModelView, half_width: int) -> bool {
    if spec_left_goal(s, half_width) {
        spec_passed_right_side(spec_adjust_ball((0, 0)), half_width)
    } else {
        spec_right_goal(s, half_width)
    }
}

/// The height below which a paddle leaves the field.
pub open spec fn spec_bottom_y(half_height: int) -> int {
    clamp(-half_height - TOP_MARGIN)
}

/// The height above which a paddle leaves the field.
pub open spec fn spec_top_y(half_height: int) -> int {
    clamp(half_height + TOP_MARGIN + HEIGHT)
}

/// A paddle's height after wrapping: one above the field comes back at the
/// bottom, one that is then below the field comes back at the top.
pub open spec fn spec_wrap_y(y: int, half_height: int) -> int {
    let lowered = if y > spec_top_y(half_height) {
        spec_bottom_y(half_height)
    } else {
        y
    };
    if lowered < spec_bottom_y(half_height) {
        spec_top_y(half_height)
    } else {
        lowered
    }
}

/// Both paddles wrapped around the vertical edges.
pub open spec fn spec_wrap(s: ModelView, half_height: int) -> ModelView {
    ModelView {
        p1_pos: (s.p1_pos.0, spec_wrap_y(s.p1_pos.1, half_height)),
        p2_pos: (s.p2_pos.0, spec_wrap_y(s.p2_pos.1, half_height)),
        ..s
    }
}

/// A whole frame on a field of the given half extents, with the rolls that a
/// goal on the left and a goal on the right would use.
pub open spec fn spec_update(
    s: ModelView,
    half_width: int,
    half_height: int,
    left: Rolls,
    right: Rolls,
) -> ModelView {
    spec_wrap(spec_score(spec_play(s, half_height), half_width, left, right), half_height)
}

/// The share of a paddle's vertical speed that a deflected ball takes over.
pub fn transfer(paddle_speed: Fixed) -> (r: Fixed)
    ensures
        r@ == spec_transfer(paddle_speed@),
{
    let speed: i64 = paddle_speed.raw();
    Fixed::from_raw(speed * SPEED_TRANSFER_NUMERATOR / SPEED_TRANSFER_DENOMINATOR)
}

/// Limits the ball's vertical speed. No limit is set: the speed comes back
/// as it is.
pub fn ball_speed_limit(y_speed: Fixed) -> (r: Fixed)
    ensures
        r == y_speed,
        r@ == spec_ball_speed_limit(y_speed@),
{
    y_speed
}

/// Moves every body by its velocity.
pub fn integrate(model: &mut Model)
    ensures
        final(model)@ == spec_integrate(old(model)@),
{
    model.ball_pos = model.ball_pos + model.ball_v;
    model.p1_pos = model.p1_pos + model.p1_v;
    model.p2_pos = model.p2_pos + model.p2_v;
}

/// Deflects the ball off a paddle of velocity `paddle_v`.
pub fn deflect(model: &mut Model, paddle_v: Vect)
    ensures
        final(model)@ == spec_deflect(old(model)@, paddle_v@),
{
    model.ball_v.0 = model.ball_v.0.neg();
    model.ball_v.1 = model.ball_v.1 + transfer(paddle_v.1);
    model.ball_pos = model.ball_pos + model.ball_v;
}

/// Deflects the ball off the paddle that overlaps it. Where both do, the
/// first paddle deflects it and the second is not looked at.
pub fn collide(model: &mut Model)
    ensures
        final(model)@ == spec_collide(old(model)@),
{
    if is_overlapping(model.p1_pos, model.ball_pos) {
        let paddle_v = model.p1_v;
        deflect(model, paddle_v);
    } else if is_overlapping(model.p2_pos, model.ball_pos) {
        let paddle_v = model.p2_v;
        deflect(model, paddle_v);
    }
}

/// Inverts the ball's vertical velocity if it touches the ceiling or the
/// floor of a field of the given half height. The ball is not moved.
pub fn bounce(model: &mut Model, half_height: Fixed)
    ensures
        final(model)@ == spec_bounce(old(model)@, half_height@),
{
    if touching_ceiling(adjust_ball(model.ball_pos), half_height) {
        model.ball_v.1 = model.ball_v.1.neg();
    }
}

/// Counts a goal where the ball is past a goal line of a field of the given
/// half width, left line first, and puts a fresh ball into play for each.
pub fn score(model: &mut Model, half_width: Fixed)
    requires
        spec_left_goal(old(model)@, half_width@) ==> old(model).p2_score < u32::MAX,
        spec_right_goal_after_left(old(model)@, half_width@) ==> old(model).p1_score < u32::MAX,
    ensures
        exists|left: Rolls, right: Rolls|
            final(model)@ == #[trigger] spec_score(old(model)@, half_width@, left, right),
{
    let ghost before = model@;
    let ghost mut left = Rolls { x_direction: 0, y_direction: 0, y_scalar: 0 };
    let ghost mut right = left;
    if passed_left_side(adjust_ball(model.ball_pos), half_width) {
        model.p2_score += 1;
        let rolls = roll(&mut model.rand_gen);
        let (new_ball_pos, new_ball_v) = respawn(rolls);
        model.ball_pos = new_ball_pos;
        model.ball_v = new_ball_v;
        proof {
            left = rolls;
        }
    }
    assert(model@ == spec_score_left(before, half_width@, left));
    if passed_right_side(adjust_ball(model.ball_pos), half_width) {
        model.p1_score += 1;
        let rolls = roll(&mut model.rand_gen);
        let (new_ball_pos, new_ball_v) = respawn(rolls);
        model.ball_pos = new_ball_pos;
        model.ball_v = new_ball_v;
        proof {
            right = rolls;
        }
    }
    assert(model@ == spec_score(before, half_width@, left, right));
}

/// The height at which a paddle of height `y` comes back after leaving a
/// field of the given half height.
pub fn wrap_y(y: Fixed, half_height: Fixed) -> (r: Fixed)
    ensures
        r@ == spec_wrap_y(y@, half_height@),
{
    let bottom_y = half_height.neg() - Fixed::from_raw(TOP_MARGIN);
    let top_y = half_height + Fixed::from_raw(TOP_MARGIN + HEIGHT);
    let mut y = y;
    if y.raw() > top_y.raw() {
        y = bottom_y;
    }
    if y.raw() < bottom_y.raw() {
        y = top_y;
    }
    y
}

/// Wraps both paddles around the vertical edges of the field. The ball is
/// left alone.
pub fn wrap(model: &mut Model, half_height: Fixed)
    ensures
        final(model)@ == spec_wrap(old(model)@, half_height@),
{
    model.p1_pos.1 = wrap_y(model.p1_pos.1, half_height);
    model.p2_pos.1 = wrap_y(model.p2_pos.1, half_height);
}

/// Advances the game by one frame in the given window.
///
/// A player's score must have room for the goal that this frame counts for
/// them, if it counts one.
pub fn update(model: &mut Model, window: Window)
    requires
        spec_left_goal(spec_play(old(model)@, window.half_height()), window.half_width())
            ==> old(model).p2_score < u32::MAX,
        spec_right_goal_after_left(
            spec_play(old(model)@, window.half_height()),
            window.half_width(),
        ) ==> old(model).p1_score < u32::MAX,
    ensures
        exists|left: Rolls, right: Rolls|
            final(model)@ == #[trigger] spec_update(
                old(model)@,
                window.half_width(),
                window.half_height(),
                left,
                right,
            ),
{
    let half_width = window.w.half();
    let half_height = window.h.half();
    integrate(model);
    collide(model);
    model.ball_v.1 = ball_speed_limit(model.ball_v.1);
    bounce(model, half_height);
    let ghost played = model@;
    assert(played == spec_play(old(model)@, half_height@));
    score(model, half_width);
    let ghost scored = model@;
    wrap(model, half_height);
    proof {
        let (left, right) = choose|left: Rolls, right: Rolls|
            scored == #[trigger] spec_score(played, half_width@, left, right);
        assert(model@ == spec_update(old(model)@, half_width@, half_height@, left, right));
    }
}

} // verus!
