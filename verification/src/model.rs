//! The state of a game, and the window it is played in.

use vstd::prelude::*;
use rand::rngs::ThreadRng;
use crate::ball::{reset_ball, spec_respawn, thread_rng, Rolls};
use crate::fixed::{div_toward_zero, Fixed, ONE};
use crate::vect::Vect;

verus! {

/// Width and height of the window that the field is derived from.
#[derive(Clone, Copy, Debug, PartialEq, Eq, Structural)]
pub struct Window {
    pub w: Fixed,
    pub h: Fixed,
}

impl Window {
    /// How far the field extends to each side of the centre.
    pub open spec fn half_width(self) -> int {
        div_toward_zero(self.w@, 2)
    }

    /// How far the field extends above and below the centre.
    pub open spec fn half_height(self) -> int {
        div_toward_zero(self.h@, 2)
    }
}

/// Everything that changes during a game: the scores, the three bodies, the
/// keys that are held, and the generator that respawns draw from.
pub struct Model {
    pub p1_score: u32,
    pub p2_score: u32,
    pub ball_pos: Vect,
    pub p1_pos: Vect,
    pub p2_pos: Vect,
    pub ball_v: Vect,
    pub p1_v: Vect,
    pub p2_v: Vect,
    pub up_pressed: bool,
    pub down_pressed: bool,
    pub w_pressed: bool,
    pub s_pressed: bool,
    pub rand_gen: ThreadRng,
}

/// A game's state as plain numbers: what the rules are stated over. The
/// generator is not part of it.
pub struct ModelView {
    pub p1_score: nat,
    pub p2_score: nat,
    pub ball_pos: (int, int),
    pub p1_pos: (int, int),
    pub p2_pos: (int, int),
    pub ball_v: (int, int),
    pub p1_v: (int, int),
    pub p2_v: (int, int),
    pub up_pressed: bool,
    pub down_pressed: bool,
    pub w_pressed: bool,
    pub s_pressed: bool,
}

impl View for Model {
    type V = ModelView;

    open spec fn view(&self) -> ModelView {
        ModelView {
            p1_score: self.p1_score as nat,
            p2_score: self.p2_score as nat,
            ball_pos: self.ball_pos@,
            p1_pos: self.p1_pos@,
            p2_pos: self.p2_pos@,
            ball_v: self.ball_v@,
            p1_v: self.p1_v@,
            p2_v: self.p2_v@,
            up_pressed: self.up_pressed,
            down_pressed: self.down_pressed,
            w_pressed: self.w_pressed,
            s_pressed: self.s_pressed,
        }
    }
}

/// Horizontal distance of each paddle from the centre.
pub const PADDLE_DISTANCE: i64 = 400 * ONE;

/// The state a game starts in, given the rolls that decide the first ball:
/// no score, the paddles at rest left and right of the centre, no key held.
pub open spec fn spec_model(rolls: Rolls) -> ModelView {
    ModelView {
        p1_score: 0,
        p2_score: 0,
        ball_pos: spec_respawn(rolls).0,
        p1_pos: (-PADDLE_DISTANCE, 0),
        p2_pos: (PADDLE_DISTANCE as int, 0),
        ball_v: spec_respawn(rolls).1,
        p1_v: (0, 0),
        p2_v: (0, 0),
        up_pressed: false,
        down_pressed: false,
        w_pressed: false,
        s_pressed: false,
    }
}

/// A new game, with its first ball decided by the thread-local generator.
pub fn model() -> (m: Model)
    ensures
        exists|rolls: Rolls| m@ == #[trigger] spec_model(rolls),
{
    let mut rand_gen = thread_rng();
    let (ball_pos, ball_v) = reset_ball(&mut rand_gen);
    let m = Model {
        p1_score: 0,
        p2_score: 0,
        p1_pos: Vect(Fixed::from_raw(-PADDLE_DISTANCE), Fixed::from_int(0)),
        p2_pos: Vect(Fixed::from_raw(PADDLE_DISTANCE), Fixed::from_int(0)),
        ball_pos,
        ball_v,
        p1_v: Vect::from_ints(0, 0),
        p2_v: Vect::from_ints(0, 0),
        up_pressed: false,
        down_pressed: false,
        w_pressed: false,
        s_pressed: false,
        rand_gen,
    };
    proof {
        let rolls = choose|rolls: Rolls| (ball_pos@, ball_v@) == #[trigger] spec_respawn(rolls);
        assert(m@ == spec_model(rolls));
    }
    m
}

} // verus!
