//! What holds of the controller on every input: the rules of grounding,
//! jumping, acceleration and damping, proved from the definitions of the
//! stages.

use vstd::prelude::*;
use crate::scalar::{
    clamp,
    lemma_during_exact_in_range,
    lemma_product_by_one,
    lemma_product_exact_in_range,
    lemma_product_exact,
    lemma_product_shrinks,
    lemma_product_with_zero,
    Scalar,
    NANOS_PER_SECOND,
    SCALE,
};
use crate::character::controller::{Character, Grounded, MovementAction};
use crate::character::geometry::{ground_normal, within_slope, MaxSlopeAngle};
use crate::character::input::{gamepad_actions, GamepadState, KeyboardState};

verus! {

/// Requests change nothing but velocity: grounding, tuning, rotation and
/// the probe's contacts are as they were. Only the classifier writes the
/// grounding.
pub proof fn lemma_actions_change_velocity_only(
    c: Character,
    actions: Seq<MovementAction>,
    delta_nanos: u64,
)
    ensures
        c.after_actions(actions, delta_nanos) == (Character {
            linear_velocity: c.after_actions(actions, delta_nanos).linear_velocity,
            ..c
        }),
    decreases actions.len(),
{
    if actions.len() > 0 {
        lemma_actions_change_velocity_only(c, actions.drop_last(), delta_nanos);
    }
}

/// A whole tick leaves tuning, rotation and contacts alone, and the
/// grounding it leaves is the one the classifier found in this tick: what
/// it was before the tick has no part in it.
pub proof fn lemma_tick_grounding_is_classification(
    c: Character,
    actions: Seq<MovementAction>,
    delta_nanos: u64,
)
    ensures
        c.after_tick(actions, delta_nanos) == (Character {
            linear_velocity: c.after_tick(actions, delta_nanos).linear_velocity,
            grounded: c.classified().grounded,
            ..c
        }),
        c.after_tick(actions, delta_nanos).grounded is Some <==> c.supported(),
{
    lemma_actions_change_velocity_only(c.classified(), actions, delta_nanos);
}

/// Classification forgets: the grounding it leaves does not depend on the
/// grounding it finds, and classifying twice is classifying once.
pub proof fn lemma_classification_forgets(c: Character, before: Option<Grounded>)
    ensures
        (Character { grounded: before, ..c }).classified() == c.classified(),
        c.classified().classified() == c.classified(),
{
}

/// A character without a slope limit whose probe met anything at all is
/// grounded at the end of the tick.
pub proof fn lemma_any_contact_grounds_without_limit(
    c: Character,
    actions: Seq<MovementAction>,
    delta_nanos: u64,
)
    requires
        c.max_slope_angle is None,
        c.shape_hits@.len() > 0,
    ensures
        c.classified().grounded is Some,
        c.after_tick(actions, delta_nanos).grounded is Some,
{
    lemma_tick_grounding_is_classification(c, actions, delta_nanos);
    let first = c.shape_hits@[0];
    assert(crate::character::geometry::is_walkable(c.rotation, first.normal, c.max_slope_angle));
}

/// A character with a slope limit whose probe met only contacts that
/// deviate from "up" by more than the limit is not grounded at the end of
/// the tick.
pub proof fn lemma_steep_contacts_do_not_ground(
    c: Character,
    limit: MaxSlopeAngle,
    actions: Seq<MovementAction>,
    delta_nanos: u64,
)
    requires
        c.max_slope_angle == Some(limit),
        forall|i: int|
            0 <= i < c.shape_hits@.len() ==> !within_slope(
                ground_normal(c.rotation, #[trigger] c.shape_hits@[i].normal),
                limit.cosine(),
            ),
    ensures
        c.classified().grounded is None,
        c.after_tick(actions, delta_nanos).grounded is None,
{
    lemma_tick_grounding_is_classification(c, actions, delta_nanos);
}

/// A character whose probe met nothing is in the air at the end of the
/// tick, with or without a slope limit, grounded before or not.
pub proof fn lemma_no_contact_means_airborne(
    c: Character,
    actions: Seq<MovementAction>,
    delta_nanos: u64,
)
    requires
        c.shape_hits@.len() == 0,
    ensures
        c.classified().grounded is None,
        c.after_tick(actions, delta_nanos).grounded is None,
{
    lemma_tick_grounding_is_classification(c, actions, delta_nanos);
}

/// A jump asked for in the air changes nothing, however often it is
/// asked for.
pub proof fn lemma_jump_in_the_air_is_dropped(c: Character, delta_nanos: u64)
    requires
        c.grounded is None,
    ensures
        c.after_action(MovementAction::Jump, delta_nanos) == c,
        c.after_action(MovementAction::Jump, delta_nanos).after_action(
            MovementAction::Jump,
            delta_nanos,
        ) == c,
{
}

/// A jump asked for on the ground sets the upward velocity to the jump
/// impulse, whatever it was before, and changes nothing else.
pub proof fn lemma_jump_on_the_ground_sets_impulse(c: Character, delta_nanos: u64)
    requires
        c.grounded is Some,
    ensures
        c.after_action(MovementAction::Jump, delta_nanos).linear_velocity.y == c.jump_impulse.0,
        c.after_action(MovementAction::Jump, delta_nanos).linear_velocity.x == c.linear_velocity.x,
        c.after_action(MovementAction::Jump, delta_nanos) == (Character {
            linear_velocity: c.after_action(MovementAction::Jump, delta_nanos).linear_velocity,
            ..c
        }),
{
}

/// A jump asked for in a tick goes by the grounding of that same tick:
/// it sets the upward velocity if what the probe met in this tick supports
/// the character, and is dropped if not, whatever the grounding was when
/// the tick began.
pub proof fn lemma_jump_goes_by_this_ticks_grounding(c: Character, delta_nanos: u64)
    ensures
        c.after_tick(seq![MovementAction::Jump], delta_nanos).linear_velocity.y == (if c.supported() {
            c.jump_impulse.0
        } else {
            c.linear_velocity.y
        }),
{
    let actions = seq![MovementAction::Jump];
    assert(actions.drop_last() =~= Seq::<MovementAction>::empty());
    assert(c.classified().after_actions(actions.drop_last(), delta_nanos) == c.classified());
}

/// No device asks for a `Move` of zero: the keyboard moves by a whole step
/// or not at all, and a gamepad whose stick is at rest is silent unless
/// its button went down.
pub proof fn lemma_no_device_moves_by_zero(keyboard: KeyboardState, gamepads: Seq<GamepadState>)
    ensures
        forall|i: int|
            0 <= i < keyboard.actions().len() ==> #[trigger] keyboard.actions()[i]
                != MovementAction::Move(Scalar { raw: 0 }),
        forall|i: int|
            0 <= i < gamepad_actions(gamepads).len() ==> #[trigger] gamepad_actions(gamepads)[i]
                != MovementAction::Move(Scalar { raw: 0 }),
    decreases gamepads.len(),
{
    if gamepads.len() > 0 {
        lemma_no_device_moves_by_zero(keyboard, gamepads.drop_last());
    }
}

/// A gamepad whose stick is at rest, or has no reading, and whose button
/// did not go down asks for nothing.
pub proof fn lemma_gamepad_at_rest_is_silent(gamepad: GamepadState)
    requires
        !gamepad.stick_pushed(),
        !gamepad.south_just_pressed,
    ensures
        gamepad.actions() == Seq::<MovementAction>::empty(),
        gamepad_actions(seq![gamepad]) == Seq::<MovementAction>::empty(),
{
    let one = seq![gamepad];
    assert(one.drop_last() =~= Seq::<GamepadState>::empty());
    assert(gamepad_actions(one.drop_last()) =~= Seq::<MovementAction>::empty());
    assert(gamepad.actions() =~= Seq::<MovementAction>::empty());
    assert(gamepad_actions(one) =~= Seq::<MovementAction>::empty());
}

/// A `Move` of zero, were one asked for, would change nothing.
pub proof fn lemma_move_of_zero_changes_nothing(c: Character, delta_nanos: u64)
    ensures
        c.after_action(MovementAction::Move(Scalar { raw: 0 }), delta_nanos) == c,
{
    lemma_product_with_zero(c.acceleration.0, delta_nanos);
    assert((Scalar { raw: 0 }).product(c.acceleration.0) == Scalar { raw: 0 });
}

/// The keyboard asks for a `Move` only while exactly one direction is
/// held, and then for a whole step in that direction; it never asks for
/// a `Move` of zero.
pub proof fn lemma_keyboard_moves_in_one_direction(keyboard: KeyboardState)
    ensures
        keyboard.left() == keyboard.right() ==> forall|i: int|
            0 <= i < keyboard.actions().len() ==> #[trigger] keyboard.actions()[i]
                == MovementAction::Jump,
        keyboard.right() && !keyboard.left() ==> keyboard.actions()[0] == MovementAction::Move(
            Scalar { raw: SCALE },
        ),
        keyboard.left() && !keyboard.right() ==> keyboard.actions()[0] == MovementAction::Move(
            Scalar { raw: (-SCALE) as i64 },
        ),
{
}

/// Each gamepad contributes on its own: the requests of two groups of
/// gamepads are those of the first group followed by those of the second.
pub proof fn lemma_gamepads_contribute_independently(
    first: Seq<GamepadState>,
    second: Seq<GamepadState>,
)
    ensures
        gamepad_actions(first + second) == gamepad_actions(first) + gamepad_actions(second),
    decreases second.len(),
{
    if second.len() == 0 {
        assert(first + second =~= first);
        assert(gamepad_actions(first) + gamepad_actions(second) =~= gamepad_actions(first));
    } else {
        lemma_gamepads_contribute_independently(first, second.drop_last());
        assert((first + second).drop_last() =~= first + second.drop_last());
        assert((first + second).last() == second.last());
        assert(gamepad_actions(first + second) =~= gamepad_actions(first) + gamepad_actions(
            second,
        ));
    }
}

/// The sideways velocity that one `Move` adds in a tick: the direction
/// times the acceleration, taken over the length of the tick.
pub open spec fn move_step(c: Character, direction: Scalar, delta_nanos: u64) -> int {
    direction.product(c.acceleration.0).during(delta_nanos)@
}

/// Where the direction times the acceleration, and that product over the
/// length of the tick, are whole numbers of raw steps within the range,
/// the step of a `Move` is exactly direction times acceleration times the
/// length of the tick: nothing is rounded and nothing saturates.
pub proof fn lemma_move_step_exact(c: Character, direction: Scalar, delta_nanos: u64)
    requires
        (direction@ * c.acceleration.0@) % (SCALE as int) == 0,
        i64::MIN <= (direction@ * c.acceleration.0@) / (SCALE as int) <= i64::MAX,
        ((direction@ * c.acceleration.0@) / (SCALE as int) * delta_nanos) % (
        NANOS_PER_SECOND as int) == 0,
        i64::MIN <= ((direction@ * c.acceleration.0@) / (SCALE as int) * delta_nanos) / (
        NANOS_PER_SECOND as int) <= i64::MAX,
    ensures
        move_step(c, direction, delta_nanos) * SCALE * NANOS_PER_SECOND == direction@
            * c.acceleration.0@ * delta_nanos,
{
    let rate = direction.product(c.acceleration.0);
    lemma_product_exact_in_range(direction, c.acceleration.0);
    assert(rate@ == (direction@ * c.acceleration.0@) / (SCALE as int)) by (nonlinear_arith)
        requires
            rate@ * SCALE == direction@ * c.acceleration.0@,
            (direction@ * c.acceleration.0@) % (SCALE as int) == 0,
            SCALE == 1_000_000,
    {}
    lemma_during_exact_in_range(rate, delta_nanos);
    let step = move_step(c, direction, delta_nanos);
    assert(step * SCALE * NANOS_PER_SECOND == direction@ * c.acceleration.0@ * delta_nanos)
        by (nonlinear_arith)
        requires
            step * NANOS_PER_SECOND == rate@ * delta_nanos,
            rate@ * SCALE == direction@ * c.acceleration.0@,
    {}
}

/// Several `Move`s in one tick add up: two of them add the sum of their
/// steps, as far as the range reaches at each addition.
pub proof fn lemma_moves_accumulate(c: Character, first: Scalar, second: Scalar, delta_nanos: u64)
    ensures
        c.after_actions(
            seq![MovementAction::Move(first), MovementAction::Move(second)],
            delta_nanos,
        ).linear_velocity.x@ == clamp(
            clamp(c.linear_velocity.x@ + move_step(c, first, delta_nanos)) + move_step(
                c,
                second,
                delta_nanos,
            ),
        ),
{
    let both = seq![MovementAction::Move(first), MovementAction::Move(second)];
    let one = seq![MovementAction::Move(first)];
    assert(both.drop_last() =~= one);
    assert(one.drop_last() =~= Seq::<MovementAction>::empty());
    assert(c.after_actions(one.drop_last(), delta_nanos) == c);
    assert(c.after_actions(one, delta_nanos) == c.after_action(
        MovementAction::Move(first),
        delta_nanos,
    ));
}

/// With a damping factor of one, a character that is asked for the same
/// `Move` once in each of `ticks` ticks of equal length gains the same
/// step each time: its sideways velocity grows linearly, up to the end of
/// the range.
pub proof fn lemma_steady_move_grows_linearly(
    c: Character,
    direction: Scalar,
    ticks: nat,
    delta_nanos: u64,
)
    requires
        c.damping.0@ == SCALE,
    ensures
        c.after_ticks(
            ticks,
            seq![MovementAction::Move(direction)],
            delta_nanos,
        ).linear_velocity.x@ == clamp(
            c.linear_velocity.x@ + ticks * move_step(c, direction, delta_nanos),
        ),
    decreases ticks,
{
    let actions = seq![MovementAction::Move(direction)];
    let step = move_step(c, direction, delta_nanos);
    if ticks == 0 {
        assert(0 * step == 0);
    } else {
        let before = c.after_ticks((ticks - 1) as nat, actions, delta_nanos);
        lemma_steady_move_grows_linearly(c, direction, (ticks - 1) as nat, delta_nanos);
        lemma_ticks_keep_tuning(c, (ticks - 1) as nat, actions, delta_nanos);
        let classified = before.classified();
        assert(actions.drop_last() =~= Seq::<MovementAction>::empty());
        assert(classified.after_actions(actions.drop_last(), delta_nanos) == classified);
        let moved = classified.after_actions(actions, delta_nanos);
        assert(moved == classified.after_action(MovementAction::Move(direction), delta_nanos));
        assert(moved.linear_velocity.x@ == clamp(before.linear_velocity.x@ + step));
        lemma_product_by_one(moved.linear_velocity.x);
        assert(moved.damped().linear_velocity.x == moved.linear_velocity.x);
        let x0 = c.linear_velocity.x@;
        let n = ticks as int;
        assert(clamp(clamp(x0 + (n - 1) * step) + step) == clamp(x0 + n * step))
            by (nonlinear_arith)
            requires
                n >= 1,
                i64::MIN <= x0 <= i64::MAX,
                i64::MIN <= step <= i64::MAX,
        {}
    }
}

/// Ticks change velocity and grounding only: the tuning, the rotation and
/// the probe's contacts stay.
pub proof fn lemma_ticks_keep_tuning(
    c: Character,
    ticks: nat,
    actions: Seq<MovementAction>,
    delta_nanos: u64,
)
    ensures
        c.after_ticks(ticks, actions, delta_nanos) == (Character {
            linear_velocity: c.after_ticks(ticks, actions, delta_nanos).linear_velocity,
            grounded: c.after_ticks(ticks, actions, delta_nanos).grounded,
            ..c
        }),
    decreases ticks,
{
    if ticks > 0 {
        lemma_ticks_keep_tuning(c, (ticks - 1) as nat, actions, delta_nanos);
        lemma_tick_grounding_is_classification(
            c.after_ticks((ticks - 1) as nat, actions, delta_nanos),
            actions,
            delta_nanos,
        );
    }
}

/// In a tick without input the sideways velocity becomes the product of
/// itself and the damping factor, and the upward velocity stays. For a
/// factor between zero and one the product does not saturate, is no
/// larger in magnitude than the velocity was, and is exact wherever the
/// exact product is a whole number of raw steps: velocity decays
/// geometrically.
pub proof fn lemma_idle_tick_decays(c: Character, delta_nanos: u64)
    ensures
        c.after_tick(Seq::empty(), delta_nanos).linear_velocity.x == c.linear_velocity.x.product(
            c.damping.0,
        ),
        c.after_tick(Seq::empty(), delta_nanos).linear_velocity.y == c.linear_velocity.y,
        0 <= c.damping.0@ <= SCALE && c.linear_velocity.x@ >= 0 ==> 0 <= c.after_tick(
            Seq::empty(),
            delta_nanos,
        ).linear_velocity.x@ <= c.linear_velocity.x@,
        0 <= c.damping.0@ <= SCALE && c.linear_velocity.x@ <= 0 ==> c.linear_velocity.x@
            <= c.after_tick(Seq::empty(), delta_nanos).linear_velocity.x@ <= 0,
        0 <= c.damping.0@ <= SCALE && (c.linear_velocity.x@ * c.damping.0@) % (SCALE as int) == 0
            ==> c.after_tick(Seq::empty(), delta_nanos).linear_velocity.x@ * SCALE
            == c.linear_velocity.x@ * c.damping.0@,
{
    if 0 <= c.damping.0@ <= SCALE {
        lemma_product_shrinks(c.linear_velocity.x, c.damping.0);
        if (c.linear_velocity.x@ * c.damping.0@) % (SCALE as int) == 0 {
            lemma_product_exact(c.linear_velocity.x, c.damping.0);
        }
    }
}

/// A character with no acceleration gains nothing from any `Move`: after
/// a tick with whatever requests, its sideways velocity is the product of
/// what it was and the damping factor.
pub proof fn lemma_zero_acceleration_only_decays(
    c: Character,
    actions: Seq<MovementAction>,
    delta_nanos: u64,
)
    requires
        c.acceleration.0@ == 0,
    ensures
        c.after_actions(actions, delta_nanos).linear_velocity.x == c.linear_velocity.x,
        c.after_tick(actions, delta_nanos).linear_velocity.x == c.linear_velocity.x.product(
            c.damping.0,
        ),
{
    lemma_zero_acceleration_moves_nothing(c.classified(), actions, delta_nanos);
    lemma_zero_acceleration_moves_nothing(c, actions, delta_nanos);
    lemma_actions_change_velocity_only(c.classified(), actions, delta_nanos);
}

/// Without acceleration no queue of requests changes the sideways
/// velocity.
proof fn lemma_zero_acceleration_moves_nothing(
    c: Character,
    actions: Seq<MovementAction>,
    delta_nanos: u64,
)
    requires
        c.acceleration.0@ == 0,
    ensures
        c.after_actions(actions, delta_nanos).linear_velocity.x == c.linear_velocity.x,
    decreases actions.len(),
{
    if actions.len() > 0 {
        lemma_zero_acceleration_moves_nothing(c, actions.drop_last(), delta_nanos);
        lemma_actions_change_velocity_only(c, actions.drop_last(), delta_nanos);
        let before = c.after_actions(actions.drop_last(), delta_nanos);
        match actions.last() {
            MovementAction::Move(direction) => {
                lemma_product_with_zero(direction, delta_nanos);
                assert(before.acceleration.0 == Scalar { raw: 0 });
                assert(direction.product(before.acceleration.0) == Scalar { raw: 0 });
            },
            MovementAction::Jump => {},
        }
    }
}

} // verus!
