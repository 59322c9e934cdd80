//! Putting the ball back into play after a goal.
//!
//! A fresh ball starts at the centre of the field. Its direction and its
//! vertical speed are decided by three rolls of the thread-local random
//! generator; what is made of the rolls is a function of the rolls alone.

use vstd::prelude::*;
use rand::rngs::ThreadRng;
use rand::Rng;
use crate::fixed::{Fixed, ONE};
use crate::vect::Vect;

verus! {

/// Horizontal speed of the ball, per frame.
pub const BALL_HORIZONTAL_SPEED: i64 = 3 * ONE;

/// `rand::rngs::ThreadRng`, the handle to the thread-local generator. Nothing
/// is known of what it holds.
#[verifier::external_type_specification]
#[verifier::external_body]
pub struct ExThreadRng(rand::rngs::ThreadRng);

/// The three values that one respawn takes from the random generator.
#[derive(Clone, Copy, Debug, PartialEq, Eq, Structural)]
pub struct Rolls {
    /// Decides the horizontal direction: right if even, left if odd.
    pub x_direction: i16,
    /// Decides the vertical direction: up if even, down if odd.
    pub y_direction: i16,
    /// Decides the vertical speed: its upper 24 bits are the fraction of the
    /// horizontal speed that the ball gets.
    pub y_scalar: u32,
}

/// The sign that a roll stands for: `1` if it is even, `-1` if it is odd.
pub open spec fn spec_direction(roll: i16) -> int {
    if (roll as int) % 2 == 0 {
        1
    } else {
        -1
    }
}

/// The fraction in `[0, 1)` that a roll stands for, in raw units: the roll
/// without its lowest eight bits.
pub open spec fn spec_fraction(roll: u32) -> int {
    (roll as int) / 256
}

/// Position and velocity of a fresh ball, given the rolls.
pub open spec fn spec_respawn(rolls: Rolls) -> ((int, int), (int, int)) {
    (
        (0, 0),
        (
            BALL_HORIZONTAL_SPEED * spec_direction(rolls.x_direction),
            BALL_HORIZONTAL_SPEED * spec_fraction(rolls.y_scalar) / (ONE as int) * spec_direction(
                rolls.y_direction,
            ),
        ),
    )
}

/// A fresh ball moves horizontally at exactly the horizontal speed, and
/// vertically at a whole multiple of three raw units below that speed.
pub proof fn lemma_respawn_speed(rolls: Rolls)
    ensures
        spec_respawn(rolls).0 == (0int, 0int),
        spec_respawn(rolls).1.0 == BALL_HORIZONTAL_SPEED || spec_respawn(rolls).1.0
            == -BALL_HORIZONTAL_SPEED,
        -BALL_HORIZONTAL_SPEED < spec_respawn(rolls).1.1 < BALL_HORIZONTAL_SPEED,
        spec_respawn(rolls).1.1 == 3 * spec_fraction(rolls.y_scalar) * spec_direction(
            rolls.y_direction,
        ),
{
    let k = spec_fraction(rolls.y_scalar);
    assert(0 <= k < ONE);
    assert(BALL_HORIZONTAL_SPEED * k == (3 * k) * ONE) by (nonlinear_arith)
        requires
            BALL_HORIZONTAL_SPEED == 3 * ONE,
    ;
    assert((3 * k) * ONE / (ONE as int) == 3 * k) by (nonlinear_arith)
        requires
            ONE > 0,
    ;
    let d = spec_direction(rolls.y_direction);
    assert(d == 1 || d == -1);
    assert((3 * k) * d == 3 * k * d) by (nonlinear_arith);
}

fn direction(roll: i16) -> (r: i64)
    ensures
        r == spec_direction(roll),
{
    if roll % 2 == 0 {
        1
    } else {
        -1
    }
}

fn fraction(roll: u32) -> (r: i64)
    ensures
        r == spec_fraction(roll),
        0 <= r < ONE,
{
    let top: u32 = roll >> 8;
    assert(top == roll / 256) by (bit_vector)
        requires
            top == roll >> 8,
    ;
    top as i64
}

/// Position and velocity of a fresh ball, given the rolls: at the centre,
/// moving horizontally at `BALL_HORIZONTAL_SPEED` and vertically at less.
pub fn respawn(rolls: Rolls) -> (r: (Vect, Vect))
    ensures
        (r.0@, r.1@) == spec_respawn(rolls),
        r.0@ == (0int, 0int),
        r.1@.0 == BALL_HORIZONTAL_SPEED || r.1@.0 == -BALL_HORIZONTAL_SPEED,
        -BALL_HORIZONTAL_SPEED < r.1@.1 < BALL_HORIZONTAL_SPEED,
{
    let x_direction: i64 = direction(rolls.x_direction);
    let y_direction: i64 = direction(rolls.y_direction);
    let y_scalar: i64 = fraction(rolls.y_scalar);
    proof {
        lemma_respawn_speed(rolls);
        assert(BALL_HORIZONTAL_SPEED * y_scalar == (3 * y_scalar) * ONE) by (nonlinear_arith)
            requires
                BALL_HORIZONTAL_SPEED == 3 * ONE,
        ;
        assert(0 <= (3 * y_scalar) * ONE < 3 * ONE * ONE) by (nonlinear_arith)
            requires
                0 <= y_scalar < ONE,
                ONE > 0,
        ;
    }
    let vertical: i64 = BALL_HORIZONTAL_SPEED * y_scalar / ONE;
    (
        Vect(Fixed::from_int(0), Fixed::from_int(0)),
        Vect(
            Fixed::from_raw(BALL_HORIZONTAL_SPEED * x_direction),
            Fixed::from_raw(vertical * y_direction),
        ),
    )
}

/// `Rng::gen::<i16>` of the rand crate on the thread-local generator: the next
/// 16-bit value. Any value may come back, so nothing is claimed of it. The
/// call ends otherwise only where the system refuses the generator fresh
/// entropy when it reseeds.
#[verifier::external_body]
fn gen_i16(rnd: &mut ThreadRng) -> (r: i16) {
    rnd.gen::<i16>()
}

/// `Rng::gen::<u32>` of the rand crate on the thread-local generator: the next
/// 32-bit value. Any value may come back, so nothing is claimed of it. The
/// call ends otherwise only where the system refuses the generator fresh
/// entropy when it reseeds.
#[verifier::external_body]
fn gen_u32(rnd: &mut ThreadRng) -> (r: u32) {
    rnd.gen::<u32>()
}

/// `rand::thread_rng`: a handle to the generator of the calling thread, which
/// the system seeds on first use. Nothing is claimed of the handle. The call
/// ends otherwise only where the system cannot seed the generator.
#[verifier::external_body]
pub(crate) fn thread_rng() -> (r: ThreadRng) {
    rand::thread_rng()
}

/// Takes the three rolls of one respawn from the generator, in the order
/// horizontal direction, vertical direction, vertical speed.
pub(crate) fn roll(rnd: &mut ThreadRng) -> (r: Rolls) {
    let x_direction: i16 = gen_i16(rnd);
    let y_direction: i16 = gen_i16(rnd);
    let y_scalar: u32 = gen_u32(rnd);
    Rolls { x_direction, y_direction, y_scalar }
}

/// Position and velocity of a fresh ball, decided by the generator. Whatever
/// it rolls, the ball is at the centre, moves horizontally at
/// `BALL_HORIZONTAL_SPEED` and vertically at less.
pub fn reset_ball(rnd: &mut ThreadRng) -> (r: (Vect, Vect))
    ensures
        exists|rolls: Rolls| (r.0@, r.1@) == #[trigger] spec_respawn(rolls),
        r.0@ == (0int, 0int),
        r.1@.0 == BALL_HORIZONTAL_SPEED || r.1@.0 == -BALL_HORIZONTAL_SPEED,
        -BALL_HORIZONTAL_SPEED < r.1@.1 < BALL_HORIZONTAL_SPEED,
{
    let rolls = roll(rnd);
    respawn(rolls)
}

} // verus!
