//! What holds of every frame and of every key event.

use vstd::prelude::*;
use crate::ball::{lemma_respawn_speed, Rolls, BALL_HORIZONTAL_SPEED};
use crate::fixed::{clamp, LIMIT};
use crate::geometry::{
    spec_adjust_ball, spec_is_overlapping, spec_touching_ceiling, HEIGHT, WIDTH,
};
use crate::input::{spec_event, spec_held, Control, PLAYER_SPEED};
use crate::model::ModelView;
use crate::update::{
    spec_bottom_y, spec_bounce, spec_collide, spec_deflect, spec_integrate, spec_left_goal,
    spec_limit, spec_play, spec_right_goal_after_left, spec_score, spec_top_y, spec_transfer,
    spec_update, spec_wrap, spec_wrap_y,
};

verus! {

/// Whether the point lies in the footprint of the ball at nominal position
/// `ball`: a square of side `WIDTH` around it, with its left and top edges
/// and without its right and bottom edges.
pub open spec fn in_ball(ball: (int, int), x: int, y: int) -> bool {
    &&& ball.0 - WIDTH / 2 <= x < ball.0 + WIDTH / 2
    &&& ball.1 - WIDTH / 2 < y <= ball.1 + WIDTH / 2
}

/// Whether the point lies in the footprint of the paddle at nominal position
/// `player`: a rectangle of `WIDTH` by `HEIGHT` around it, with its left and
/// top edges and without its right and bottom edges.
pub open spec fn in_player(player: (int, int), x: int, y: int) -> bool {
    &&& player.0 - WIDTH / 2 <= x < player.0 + WIDTH / 2
    &&& player.1 - HEIGHT / 2 < y <= player.1 + HEIGHT / 2
}

/// Away from the limit, a paddle and the ball overlap exactly when some point
/// lies in both footprints.
pub proof fn lemma_overlap_is_shared_point(player: (int, int), ball: (int, int))
    requires
        -LIMIT + HEIGHT <= player.0 <= LIMIT - HEIGHT,
        -LIMIT + HEIGHT <= player.1 <= LIMIT - HEIGHT,
        -LIMIT + HEIGHT <= ball.0 <= LIMIT - HEIGHT,
        -LIMIT + HEIGHT <= ball.1 <= LIMIT - HEIGHT,
    ensures
        spec_is_overlapping(player, ball) <==> exists|x: int, y: int|
            in_ball(ball, x, y) && in_player(player, x, y),
{
    if spec_is_overlapping(player, ball) {
        let x = if ball.0 >= player.0 {
            ball.0 - WIDTH / 2
        } else {
            player.0 - WIDTH / 2
        };
        let y = if ball.1 + WIDTH / 2 <= player.1 + HEIGHT / 2 {
            ball.1 + WIDTH / 2
        } else {
            player.1 + HEIGHT / 2
        };
        assert(in_ball(ball, x, y) && in_player(player, x, y));
    }
}

/// A ball that touches the ceiling or the floor once the bodies have moved
/// and a paddle has had its chance to deflect it, and that passes no goal
/// line, ends the frame with its vertical velocity inverted. Where no paddle
/// overlaps it, that is the inverse of the vertical velocity it came with.
pub proof fn lemma_bounce_inverts_vertical_velocity(
    s: ModelView,
    half_width: int,
    half_height: int,
    left: Rolls,
    right: Rolls,
)
    requires
        spec_touching_ceiling(
            spec_adjust_ball(spec_collide(spec_integrate(s)).ball_pos),
            half_height,
        ),
        !spec_left_goal(spec_play(s, half_height), half_width),
        !spec_right_goal_after_left(spec_play(s, half_height), half_width),
    ensures
        spec_update(s, half_width, half_height, left, right).ball_v.1 == -spec_collide(
            spec_integrate(s),
        ).ball_v.1,
        !spec_is_overlapping(spec_integrate(s).p1_pos, spec_integrate(s).ball_pos)
            && !spec_is_overlapping(spec_integrate(s).p2_pos, spec_integrate(s).ball_pos)
            ==> spec_update(s, half_width, half_height, left, right).ball_v.1 == -s.ball_v.1,
{
}

/// A frame counts one goal for the second player exactly when the ball has
/// passed the left goal line, and one for the first player exactly when it is
/// then found past the right one; no score changes otherwise. After a goal
/// the ball is at the centre, moving horizontally at the horizontal speed and
/// vertically at less.
pub proof fn lemma_goals(
    s: ModelView,
    half_width: int,
    half_height: int,
    left: Rolls,
    right: Rolls,
)
    ensures
        ({
            let played = spec_play(s, half_height);
            let after = spec_update(s, half_width, half_height, left, right);
            let left_goal = spec_left_goal(played, half_width);
            let right_goal = spec_right_goal_after_left(played, half_width);
            &&& after.p2_score == s.p2_score + if left_goal { 1nat } else { 0nat }
            &&& after.p1_score == s.p1_score + if right_goal { 1nat } else { 0nat }
            &&& left_goal || right_goal ==> {
                &&& after.ball_pos == (0int, 0int)
                &&& after.ball_v.0 == BALL_HORIZONTAL_SPEED || after.ball_v.0
                    == -BALL_HORIZONTAL_SPEED
                &&& -BALL_HORIZONTAL_SPEED < after.ball_v.1 < BALL_HORIZONTAL_SPEED
            }
            &&& !left_goal && !right_goal ==> {
                &&& after.ball_pos == played.ball_pos
                &&& after.ball_v == played.ball_v
            }
        }),
{
    lemma_respawn_speed(left);
    lemma_respawn_speed(right);
}

/// Only a respawn and a deflection touch the ball's horizontal velocity: a
/// frame without a goal keeps it, or inverts it where a paddle overlaps the
/// ball once the bodies have moved.
pub proof fn lemma_horizontal_velocity(
    s: ModelView,
    half_width: int,
    half_height: int,
    left: Rolls,
    right: Rolls,
)
    requires
        !spec_left_goal(spec_play(s, half_height), half_width),
        !spec_right_goal_after_left(spec_play(s, half_height), half_width),
    ensures
        ({
            let moved = spec_integrate(s);
            let after = spec_update(s, half_width, half_height, left, right);
            let deflected = spec_is_overlapping(moved.p1_pos, moved.ball_pos)
                || spec_is_overlapping(moved.p2_pos, moved.ball_pos);
            after.ball_v.0 == if deflected { -s.ball_v.0 } else { s.ball_v.0 }
        }),
{
}

/// What a frame makes of the state once the bodies have moved and a paddle
/// has had its chance to deflect the ball.
pub open spec fn spec_settle(
    s: ModelView,
    half_width: int,
    half_height: int,
    left: Rolls,
    right: Rolls,
) -> ModelView {
    spec_wrap(
        spec_score(spec_bounce(spec_limit(s), half_height), half_width, left, right),
        half_height,
    )
}

/// Where the first paddle overlaps the ball once the bodies have moved, the
/// frame goes on from the first paddle's deflection alone: the ball's
/// horizontal velocity inverted and the share of the first paddle's vertical
/// speed added. Whether the second paddle overlaps the ball too makes no
/// difference.
pub proof fn lemma_first_paddle_takes_precedence(
    s: ModelView,
    half_width: int,
    half_height: int,
    left: Rolls,
    right: Rolls,
)
    requires
        spec_is_overlapping(spec_integrate(s).p1_pos, spec_integrate(s).ball_pos),
    ensures
        spec_collide(spec_integrate(s)).ball_v == (
            -s.ball_v.0,
            clamp(s.ball_v.1 + spec_transfer(s.p1_v.1)),
        ),
        spec_update(s, half_width, half_height, left, right) == spec_settle(
            spec_deflect(spec_integrate(s), s.p1_v),
            half_width,
            half_height,
            left,
            right,
        ),
{
}

/// A paddle that has moved above the top of the field ends the frame at its
/// bottom, and one that has moved below the bottom ends it at the top. A
/// paddle between the two ends the frame where it has moved to.
pub proof fn lemma_paddles_wrap(
    s: ModelView,
    half_width: int,
    half_height: int,
    left: Rolls,
    right: Rolls,
)
    ensures
        ({
            let moved = spec_integrate(s);
            let after = spec_update(s, half_width, half_height, left, right);
            let top = spec_top_y(half_height);
            let bottom = spec_bottom_y(half_height);
            &&& after.p1_pos == (moved.p1_pos.0, spec_wrap_y(moved.p1_pos.1, half_height))
            &&& after.p2_pos == (moved.p2_pos.0, spec_wrap_y(moved.p2_pos.1, half_height))
            &&& forall|y: int| y > top ==> #[trigger] spec_wrap_y(y, half_height) == bottom
            &&& forall|y: int| y <= top && y < bottom ==> #[trigger] spec_wrap_y(y, half_height) == top
            &&& forall|y: int| bottom <= y <= top ==> #[trigger] spec_wrap_y(y, half_height) == y
        }),
{
}

/// A frame leaves the paddles' velocities and the held keys alone.
pub proof fn lemma_frame_leaves_input_alone(
    s: ModelView,
    half_width: int,
    half_height: int,
    left: Rolls,
    right: Rolls,
)
    ensures
        ({
            let after = spec_update(s, half_width, half_height, left, right);
            &&& after.p1_v == s.p1_v
            &&& after.p2_v == s.p2_v
            &&& after.up_pressed == s.up_pressed
            &&& after.down_pressed == s.down_pressed
            &&& after.w_pressed == s.w_pressed
            &&& after.s_pressed == s.s_pressed
        }),
{
}

/// The share that a deflected ball takes over is four fifths of the paddle's
/// vertical speed: exactly so where that speed is a multiple of five raw
/// units, and else the nearest whole number of raw units toward zero. It has
/// the sign of the paddle's speed and is never larger in magnitude.
pub proof fn lemma_transfer_is_four_fifths(paddle_speed: int)
    ensures
        paddle_speed % 5 == 0 ==> 5 * spec_transfer(paddle_speed) == 4 * paddle_speed,
        paddle_speed >= 0 ==> 4 * paddle_speed - 5 < 5 * spec_transfer(paddle_speed) <= 4
            * paddle_speed,
        paddle_speed <= 0 ==> 4 * paddle_speed <= 5 * spec_transfer(paddle_speed) < 4
            * paddle_speed + 5,
        spec_transfer(-paddle_speed) == -spec_transfer(paddle_speed),
        paddle_speed >= 0 ==> 0 <= spec_transfer(paddle_speed) <= paddle_speed,
        paddle_speed <= 0 ==> paddle_speed <= spec_transfer(paddle_speed) <= 0,
{
}

/// A second press of a control that is held changes nothing: two presses in
/// a row leave the state that one press leaves.
pub proof fn lemma_press_is_idempotent(s: ModelView, control: Control)
    ensures
        spec_held(spec_event(s, control, true), control),
        spec_event(spec_event(s, control, true), control, true) == spec_event(s, control, true),
{
}

/// A control's flag changes only on an edge, and an event leaves the flags of
/// the other controls, both scores, the ball and all positions alone.
pub proof fn lemma_event_touches_one_control(s: ModelView, control: Control, pressed: bool)
    ensures
        ({
            let after = spec_event(s, control, pressed);
            &&& spec_held(after, control) == pressed
            &&& forall|other: Control| other != control ==> spec_held(after, other) == spec_held(s, other)
            &&& after.p1_score == s.p1_score && after.p2_score == s.p2_score
            &&& after.ball_pos == s.ball_pos && after.ball_v == s.ball_v
            &&& after.p1_pos == s.p1_pos && after.p2_pos == s.p2_pos
            &&& after.p1_v.0 == s.p1_v.0 && after.p2_v.0 == s.p2_v.0
        }),
{
}

/// A release always counts: held or not, the control ends not held and its
/// paddle's vertical velocity has changed by the player speed, against the
/// control's direction.
pub proof fn lemma_release_always_counts(s: ModelView, control: Control)
    ensures
        ({
            let after = spec_event(s, control, false);
            let step = if control.spec_positive_direction() {
                -PLAYER_SPEED
            } else {
                PLAYER_SPEED as int
            };
            &&& !spec_held(after, control)
            &&& control.spec_first_player() ==> after.p1_v == (s.p1_v.0, clamp(s.p1_v.1 + step))
                && after.p2_v == s.p2_v
            &&& !control.spec_first_player() ==> after.p2_v == (s.p2_v.0, clamp(s.p2_v.1 + step))
                && after.p1_v == s.p1_v
        }),
{
}

/// Away from the limit, releasing a control that was pressed while not held
/// gives the paddle back the velocity it had before the press.
pub proof fn lemma_release_undoes_press(s: ModelView, control: Control)
    requires
        !spec_held(s, control),
        -LIMIT + PLAYER_SPEED <= s.p1_v.1 <= LIMIT - PLAYER_SPEED,
        -LIMIT + PLAYER_SPEED <= s.p2_v.1 <= LIMIT - PLAYER_SPEED,
    ensures
        spec_event(spec_event(s, control, true), control, false) == s,
{
}

} // verus!
