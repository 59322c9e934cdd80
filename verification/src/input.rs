//! Keys and what they do to the paddles.
//!
//! Each of the four controls adds to or takes from the vertical velocity of
//! one paddle. A control that is held is remembered, so that a repeated press
//! counts once.

use vstd::prelude::*;
use crate::fixed::{clamp, Fixed, ONE};
use crate::model::{Model, ModelView};
use crate::vect::Vect;

verus! {

/// Vertical speed that one held control gives its paddle, per frame.
pub const PLAYER_SPEED: i64 = 5 * ONE;

/// The four keys that move a paddle.
#[derive(Clone, Copy, Debug, PartialEq, Eq, Structural)]
pub enum Control {
    /// Moves the second player's paddle up.
    Up,
    /// Moves the second player's paddle down.
    Down,
    /// Moves the first player's paddle up.
    W,
    /// Moves the first player's paddle down.
    S,
}

impl Control {
    /// Whether the control moves its paddle up.
    pub open spec fn spec_positive_direction(self) -> bool {
        self is Up || self is W
    }

    /// Whether the control belongs to the first player.
    pub open spec fn spec_first_player(self) -> bool {
        self is W || self is S
    }
}

/// Whether the control is remembered as held.
pub open spec fn spec_held(s: ModelView, control: Control) -> bool {
    match control {
        Control::Up => s.up_pressed,
        Control::Down => s.down_pressed,
        Control::W => s.w_pressed,
        Control::S => s.s_pressed,
    }
}

/// The state with the control remembered as held, or as not held.
pub open spec fn spec_set_held(s: ModelView, control: Control, held: bool) -> ModelView {
    match control {
        Control::Up => ModelView { up_pressed: held, ..s },
        Control::Down => ModelView { down_pressed: held, ..s },
        Control::W => ModelView { w_pressed: held, ..s },
        Control::S => ModelView { s_pressed: held, ..s },
    }
}

/// What a press or a release of the control adds to the vertical velocity of
/// its paddle. A press adds the player speed in the control's direction; a
/// release adds it in the other direction.
pub open spec fn spec_delta(control: Control, pressed: bool) -> int {
    if control.spec_positive_direction() == pressed {
        PLAYER_SPEED as int
    } else {
        -PLAYER_SPEED
    }
}

/// The state with `delta` added to the vertical velocity of the control's
/// paddle.
pub open spec fn spec_accelerate(s: ModelView, control: Control, delta: int) -> ModelView {
    if control.spec_first_player() {
        ModelView { p1_v: (s.p1_v.0, clamp(s.p1_v.1 + delta)), ..s }
    } else {
        ModelView { p2_v: (s.p2_v.0, clamp(s.p2_v.1 + delta)), ..s }
    }
}

/// The state after a key event. A press of a control that is held changes
/// nothing. Any other press marks the control held, and any release marks it
/// not held; both then change the paddle's velocity. A release does so
/// whether or not the control was held.
pub open spec fn spec_event(s: ModelView, control: Control, pressed: bool) -> ModelView {
    if pressed && spec_held(s, control) {
        s
    } else {
        spec_accelerate(spec_set_held(s, control, pressed), control, spec_delta(control, pressed))
    }
}

/// Handles a press (`pressed`) or a release of a control.
pub fn event(model: &mut Model, control: Control, pressed: bool)
    ensures
        final(model)@ == spec_event(old(model)@, control, pressed),
{
    let (p_v, is_pressed, positive_direction): (&mut Vect, &mut bool, bool) = match control {
        Control::Up => (&mut model.p2_v, &mut model.up_pressed, true),
        Control::Down => (&mut model.p2_v, &mut model.down_pressed, false),
        Control::W => (&mut model.p1_v, &mut model.w_pressed, true),
        Control::S => (&mut model.p1_v, &mut model.s_pressed, false),
    };

    if pressed {
        if !(*is_pressed) {
            *is_pressed = true;
            p_v.1 = p_v.1 + Fixed::from_raw(
                if positive_direction {
                    PLAYER_SPEED
                } else {
                    -PLAYER_SPEED
                },
            );
        }
    } else {
        *is_pressed = false;
        p_v.1 = p_v.1 + Fixed::from_raw(
            if positive_direction {
                -PLAYER_SPEED
            } else {
                PLAYER_SPEED
            },
        );
    }
}

} // verus!
