//! The movement resolver and the damping stage: how the requests of a tick
//! and the passing of the tick itself change a character's velocity.

use vstd::prelude::*;
use crate::character::controller::{Character, LinearVelocity, MovementAction};

verus! {

impl Character {
    /// The character after one request, in a tick that lasts `delta_nanos`
    /// nanoseconds.
    ///
    /// A `Move` adds `direction * acceleration * delta` to the sideways
    /// velocity. A `Jump` sets the upward velocity to the jump impulse,
    /// whatever it was, if the character is grounded, and does nothing if
    /// it is not.
    pub open spec fn after_action(self, action: MovementAction, delta_nanos: u64) -> Character {
        match action {
            MovementAction::Move(direction) => Character {
                linear_velocity: LinearVelocity {
                    x: self.linear_velocity.x.sum(
                        direction.product(self.acceleration.0).during(delta_nanos),
                    ),
                    y: self.linear_velocity.y,
                },
                ..self
            },
            MovementAction::Jump => if self.grounded is Some {
                Character {
                    linear_velocity: LinearVelocity {
                        x: self.linear_velocity.x,
                        y: self.jump_impulse.0,
                    },
                    ..self
                }
            } else {
                self
            },
        }
    }

    /// The character after all the requests of a tick, each carried out in
    /// its turn: what several sources ask for adds up.
    pub open spec fn after_actions(self, actions: Seq<MovementAction>, delta_nanos: u64) -> Character
        decreases actions.len(),
    {
        if actions.len() == 0 {
            self
        } else {
            self.after_actions(actions.drop_last(), delta_nanos).after_action(
                actions.last(),
                delta_nanos,
            )
        }
    }

    /// The character after the damping stage: its sideways velocity
    /// multiplied by the damping factor.
    pub open spec fn damped(self) -> Character {
        Character {
            linear_velocity: LinearVelocity {
                x: self.linear_velocity.x.product(self.damping.0),
                y: self.linear_velocity.y,
            },
            ..self
        }
    }

    /// Carries out one request on this character.
    pub fn apply_action(&mut self, action: &MovementAction, delta_nanos: u64)
        ensures
            *final(self) == old(self).after_action(*action, delta_nanos),
    {
        match action {
            MovementAction::Move(direction) => {
                let step = direction.saturating_mul(self.acceleration.0).over_nanos(delta_nanos);
                self.linear_velocity.x = self.linear_velocity.x.saturating_add(step);
            },
            MovementAction::Jump => {
                if self.grounded.is_some() {
                    self.linear_velocity.y = self.jump_impulse.0;
                }
            },
        }
    }

    /// Damps this character's sideways velocity.
    pub fn apply_damping(&mut self)
        ensures
            *final(self) == old(self).damped(),
    {
        self.linear_velocity.x = self.linear_velocity.x.saturating_mul(self.damping.0);
    }
}

/// Carries out the requests of one tick, in the order of the queue, on
/// every character. The queue itself is left as it is: the caller drops it
/// at the end of the tick.
pub fn movement(delta_nanos: u64, actions: &Vec<MovementAction>, characters: &mut Vec<Character>)
    ensures
        final(characters)@.len() == old(characters)@.len(),
        forall|i: int|
            0 <= i < old(characters)@.len() ==> #[trigger] final(characters)@[i] == old(
                characters,
            )@[i].after_actions(actions@, delta_nanos),
{
    let mut e: usize = 0;
    while e < actions.len()
        invariant
            e <= actions.len(),
            characters@.len() == old(characters)@.len(),
            forall|j: int|
                0 <= j < characters@.len() ==> #[trigger] characters@[j] == old(
                    characters,
                )@[j].after_actions(actions@.take(e as int), delta_nanos),
        decreases actions.len() - e,
    {
        let ghost done = actions@.take(e as int);
        let ghost next = actions@.take(e + 1);
        assert(next.drop_last() =~= done);
        assert(next.last() == actions@[e as int]);
        let mut i: usize = 0;
        while i < characters.len()
            invariant
                e < actions.len(),
                i <= characters.len(),
                characters@.len() == old(characters)@.len(),
                next.len() > 0,
                next.drop_last() == done,
                next.last() == actions@[e as int],
                forall|j: int|
                    0 <= j < i ==> #[trigger] characters@[j] == old(characters)@[j].after_actions(
                        next,
                        delta_nanos,
                    ),
                forall|j: int|
                    i <= j < characters@.len() ==> #[trigger] characters@[j] == old(
                        characters,
                    )@[j].after_actions(done, delta_nanos),
            decreases characters.len() - i,
        {
            characters[i].apply_action(&actions[e], delta_nanos);
            i += 1;
        }
        e += 1;
    }
    proof {
        assert(actions@.take(actions.len() as int) =~= actions@);
    }
}

/// Damps the sideways velocity of every character. Runs in every tick,
/// whether or not anything was asked for.
///
/// The factor is applied once per tick, however long the tick lasts: with
/// ticks of uneven length the same factor slows a character unevenly.
pub fn apply_movement_damping(characters: &mut Vec<Character>)
    ensures
        final(characters)@.len() == old(characters)@.len(),
        forall|i: int|
            0 <= i < old(characters)@.len() ==> #[trigger] final(characters)@[i] == old(
                characters,
            )@[i].damped(),
{
    let mut i: usize = 0;
    while i < characters.len()
        invariant
            i <= characters.len(),
            characters@.len() == old(characters)@.len(),
            forall|j: int| 0 <= j < i ==> #[trigger] characters@[j] == old(characters)@[j].damped(),
            forall|j: int| i <= j < characters@.len() ==> #[trigger] characters@[j] == old(characters)@[j],
        decreases characters.len() - i,
    {
        characters[i].apply_damping();
        i += 1;
    }
}

} // verus!
