//! One simulation tick: the four stages in their fixed order.
//!
//! Input is collected first, then every character is classified as grounded
//! or not, then the requests are carried out, then velocity is damped. The
//! resolver must see the grounding of this tick, not of the one before, so
//! the order is part of the rules.

use vstd::prelude::*;
use crate::character::controller::{Character, MovementAction};
use crate::character::grounded::update_grounded;
use crate::character::input::{
    gamepad_actions,
    gamepad_input,
    keyboard_input,
    GamepadState,
    KeyboardState,
};
use crate::character::movement::{apply_movement_damping, movement};

verus! {

/// The queue of requests of one tick: the keyboard's, then the gamepads'.
pub open spec fn collected_actions(
    keyboard: KeyboardState,
    gamepads: Seq<GamepadState>,
) -> Seq<MovementAction> {
    keyboard.actions() + gamepad_actions(gamepads)
}

impl Character {
    /// The character after a tick of `delta_nanos` nanoseconds in which
    /// `actions` were asked for: classified, then moved, then damped.
    pub open spec fn after_tick(self, actions: Seq<MovementAction>, delta_nanos: u64) -> Character {
        self.classified().after_actions(actions, delta_nanos).damped()
    }

    /// The character after `ticks` ticks, in each of which the same
    /// `actions` were asked for and the probe met the same contacts.
    pub open spec fn after_ticks(
        self,
        ticks: nat,
        actions: Seq<MovementAction>,
        delta_nanos: u64,
    ) -> Character
        decreases ticks,
    {
        if ticks == 0 {
            self
        } else {
            self.after_ticks((ticks - 1) as nat, actions, delta_nanos).after_tick(
                actions,
                delta_nanos,
            )
        }
    }
}

/// Fills a fresh queue with what the input devices ask for in this tick.
/// Nothing of an earlier tick is in it.
pub fn collect_input(keyboard: &KeyboardState, gamepads: &Vec<GamepadState>) -> (queue: Vec<
    MovementAction,
>)
    ensures
        queue@ == collected_actions(*keyboard, gamepads@),
{
    let mut queue: Vec<MovementAction> = Vec::new();
    keyboard_input(keyboard, &mut queue);
    gamepad_input(gamepads, &mut queue);
    assert(queue@ =~= collected_actions(*keyboard, gamepads@));
    queue
}

/// Runs the stages that follow input collection on every character:
/// classification, movement and damping, in this order.
pub fn resolve_tick(
    actions: &Vec<MovementAction>,
    delta_nanos: u64,
    characters: &mut Vec<Character>,
)
    ensures
        final(characters)@.len() == old(characters)@.len(),
        forall|i: int|
            0 <= i < old(characters)@.len() ==> #[trigger] final(characters)@[i] == old(
                characters,
            )@[i].after_tick(actions@, delta_nanos),
{
    update_grounded(characters);
    movement(delta_nanos, actions, characters);
    apply_movement_damping(characters);
}

/// Runs one whole tick of `delta_nanos` nanoseconds: collects the input of
/// the keyboard and the gamepads, then resolves it on every character. The
/// queue does not outlive the tick.
pub fn run_tick(
    keyboard: &KeyboardState,
    gamepads: &Vec<GamepadState>,
    delta_nanos: u64,
    characters: &mut Vec<Character>,
)
    ensures
        final(characters)@.len() == old(characters)@.len(),
        forall|i: int|
            0 <= i < old(characters)@.len() ==> #[trigger] final(characters)@[i] == old(
                characters,
            )@[i].after_tick(collected_actions(*keyboard, gamepads@), delta_nanos),
{
    let queue = collect_input(keyboard, gamepads);
    resolve_tick(&queue, delta_nanos, characters);
}

} // verus!
