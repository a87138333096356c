//! Input collectors: what the keyboard and the gamepads ask for in a tick.
//!
//! A collector only appends to the tick's queue of requests. A device that
//! asks for nothing appends nothing: in particular the keyboard never
//! writes a `Move` of zero, which would stand beside what a gamepad asks.

use vstd::prelude::*;
use crate::scalar::{Scalar, SCALE};
use crate::character::controller::MovementAction;

verus! {

/// The keys the controller listens to, as they are in one tick.
#[derive(Clone, Copy, Debug, PartialEq, Eq, Structural)]
pub struct KeyboardState {
    /// `A` is held.
    pub key_a: bool,
    /// The left arrow is held.
    pub arrow_left: bool,
    /// `D` is held.
    pub key_d: bool,
    /// The right arrow is held.
    pub arrow_right: bool,
    /// The space bar went down in this tick.
    pub space_just_pressed: bool,
}

impl KeyboardState {
    /// Whether a key for "left" is held.
    pub open spec fn left(self) -> bool {
        self.key_a || self.arrow_left
    }

    /// Whether a key for "right" is held.
    pub open spec fn right(self) -> bool {
        self.key_d || self.arrow_right
    }

    /// The direction asked for: -1, 0 or 1. Left and right together cancel.
    pub open spec fn direction(self) -> int {
        (if self.right() { 1int } else { 0int }) - (if self.left() { 1int } else { 0int })
    }

    /// The requests that the keyboard makes in this tick, in order.
    pub open spec fn actions(self) -> Seq<MovementAction> {
        let moves = if self.direction() != 0 {
            seq![MovementAction::Move(Scalar { raw: (self.direction() * SCALE) as i64 })]
        } else {
            Seq::empty()
        };
        let jumps = if self.space_just_pressed {
            seq![MovementAction::Jump]
        } else {
            Seq::empty()
        };
        moves + jumps
    }
}

/// One connected gamepad, as it is in one tick.
#[derive(Clone, Copy, Debug, PartialEq, Eq, Structural)]
pub struct GamepadState {
    /// The reading of the left stick's horizontal axis, if it has one.
    /// A stick at rest reads zero.
    pub left_stick_x: Option<Scalar>,
    /// The south button went down in this tick.
    pub south_just_pressed: bool,
}

impl GamepadState {
    /// Whether the stick is pushed: it has a reading, and the reading is
    /// not that of a stick at rest.
    pub open spec fn stick_pushed(self) -> bool {
        self.left_stick_x matches Some(x) && x@ != 0
    }

    /// The requests that this gamepad makes in this tick, in order: a
    /// `Move` of the stick's reading while the stick is pushed, then a
    /// `Jump` if the south button went down. A stick at rest asks for
    /// nothing, so that no `Move` of zero stands beside what another
    /// device asks for.
    pub open spec fn actions(self) -> Seq<MovementAction> {
        let moves = if self.stick_pushed() {
            seq![MovementAction::Move(self.left_stick_x->0)]
        } else {
            Seq::empty()
        };
        let jumps = if self.south_just_pressed {
            seq![MovementAction::Jump]
        } else {
            Seq::empty()
        };
        moves + jumps
    }
}

/// The requests of all the gamepads, each gamepad's after those of the
/// gamepads before it.
pub open spec fn gamepad_actions(gamepads: Seq<GamepadState>) -> Seq<MovementAction>
    decreases gamepads.len(),
{
    if gamepads.len() == 0 {
        Seq::empty()
    } else {
        gamepad_actions(gamepads.drop_last()) + gamepads.last().actions()
    }
}

/// Appends to `queue` what the keyboard asks for: a `Move` of minus one or
/// one while exactly one direction is held, then a `Jump` if the space bar
/// went down.
pub fn keyboard_input(keyboard: &KeyboardState, queue: &mut Vec<MovementAction>)
    ensures
        final(queue)@ == old(queue)@ + keyboard.actions(),
{
    let left = keyboard.key_a || keyboard.arrow_left;
    let right = keyboard.key_d || keyboard.arrow_right;
    if right && !left {
        queue.push(MovementAction::Move(Scalar::from_raw(SCALE)));
    } else if left && !right {
        queue.push(MovementAction::Move(Scalar::from_raw(-SCALE)));
    }
    if keyboard.space_just_pressed {
        queue.push(MovementAction::Jump);
    }
    assert(queue@ =~= old(queue)@ + keyboard.actions());
}

/// Appends to `queue` what each gamepad asks for, gamepad by gamepad: a
/// `Move` of the stick's reading while the stick is pushed, then a `Jump`
/// if the south button went down. A stick at rest, or one without a
/// reading, appends no `Move`. With no gamepad connected nothing is
/// appended.
pub fn gamepad_input(gamepads: &Vec<GamepadState>, queue: &mut Vec<MovementAction>)
    ensures
        final(queue)@ == old(queue)@ + gamepad_actions(gamepads@),
{
    let mut i: usize = 0;
    while i < gamepads.len()
        invariant
            i <= gamepads.len(),
            queue@ == old(queue)@ + gamepad_actions(gamepads@.take(i as int)),
        decreases gamepads.len() - i,
    {
        let ghost before = queue@;
        let pad = &gamepads[i];
        if let Some(x) = pad.left_stick_x {
            if x.raw != 0 {
                queue.push(MovementAction::Move(x));
            }
        }
        if pad.south_just_pressed {
            queue.push(MovementAction::Jump);
        }
        proof {
            assert(queue@ =~= before + pad.actions());
            assert(gamepads@.take(i + 1).drop_last() =~= gamepads@.take(i as int));
            assert(queue@ =~= old(queue)@ + gamepad_actions(gamepads@.take(i + 1)));
        }
        i += 1;
    }
    proof {
        assert(gamepads@.take(gamepads.len() as int) =~= gamepads@);
    }
}

} // verus!
