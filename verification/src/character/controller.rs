//! What a controlled character is made of: its tuning, the probe that looks
//! for ground below it, and the state the stages of a tick read and write.

use vstd::prelude::*;
use crate::scalar::{Scalar, SCALE};
use crate::character::geometry::{
    MaxSlopeAngle,
    Normal,
    Rotation,
    Vector,
    DEFAULT_SLOPE_COSINE,
};

verus! {

/// A request that one input source makes within a tick. Requests of several
/// sources are gathered in one queue and all are carried out.
#[derive(Clone, Copy, Debug, PartialEq, Eq, Structural)]
pub enum MovementAction {
    /// Accelerate sideways: negative to the left, positive to the right.
    Move(Scalar),
    /// Leave the ground.
    Jump,
}

/// Marks an entity as driven by a character controller.
#[derive(Clone, Copy, Debug, PartialEq, Eq, Structural)]
pub struct CharacterController;

/// Marks a character as standing on ground it can walk on.
#[derive(Clone, Copy, Debug, PartialEq, Eq, Structural)]
pub struct Grounded;

/// Sideways acceleration, in units per second squared.
#[derive(Clone, Copy, Debug, PartialEq, Eq, Structural)]
pub struct MovementAcceleration(pub Scalar);

/// The factor that sideways velocity is multiplied by once per tick.
#[derive(Clone, Copy, Debug, PartialEq, Eq, Structural)]
pub struct MovementDampingFactor(pub Scalar);

/// The upward velocity that a jump sets, in units per second.
#[derive(Clone, Copy, Debug, PartialEq, Eq, Structural)]
pub struct JumpImpulse(pub Scalar);

/// Velocity in the plane, in units per second.
#[derive(Clone, Copy, Debug, PartialEq, Eq, Structural)]
pub struct LinearVelocity {
    pub x: Scalar,
    pub y: Scalar,
}

impl LinearVelocity {
    /// No motion.
    pub fn zero() -> (v: LinearVelocity)
        ensures
            v.x@ == 0,
            v.y@ == 0,
    {
        LinearVelocity { x: Scalar::zero(), y: Scalar::zero() }
    }
}

/// One contact that the downward probe of a character met.
#[derive(Clone, Copy, Debug, PartialEq, Eq, Structural)]
pub struct ShapeHit {
    /// The normal of the contact on the probe's own shape, in the
    /// character's frame: it points out of the character, towards what
    /// was hit.
    pub normal: Normal,
}

/// The tuning of a character's movement.
#[derive(Clone, Copy, Debug, PartialEq, Eq, Structural)]
pub struct MovementBundle {
    pub damping: MovementDampingFactor,
    pub jump_impulse: JumpImpulse,
    pub acceleration: MovementAcceleration,
    pub max_slope_angle: MaxSlopeAngle,
}

/// Raw default damping factor: nine tenths.
pub const DEFAULT_DAMPING: i64 = 900_000;

/// Raw default jump impulse: seven units per second.
pub const DEFAULT_JUMP_IMPULSE: i64 = 7_000_000;

/// Raw default acceleration: thirty units per second squared.
pub const DEFAULT_ACCELERATION: i64 = 30_000_000;

impl MovementBundle {
    /// The tuning with the given values.
    pub fn new(
        damping: Scalar,
        jump_impulse: Scalar,
        acceleration: Scalar,
        max_slope_angle: MaxSlopeAngle,
    ) -> (bundle: MovementBundle)
        ensures
            bundle.damping == MovementDampingFactor(damping),
            bundle.jump_impulse == JumpImpulse(jump_impulse),
            bundle.acceleration == MovementAcceleration(acceleration),
            bundle.max_slope_angle == max_slope_angle,
    {
        MovementBundle {
            damping: MovementDampingFactor(damping),
            jump_impulse: JumpImpulse(jump_impulse),
            acceleration: MovementAcceleration(acceleration),
            max_slope_angle,
        }
    }
}

impl Default for MovementBundle {
    /// Damping of nine tenths, a jump of seven, an acceleration of thirty
    /// and a slope limit of 81 degrees.
    fn default() -> (bundle: MovementBundle)
        ensures
            bundle.damping.0@ == DEFAULT_DAMPING,
            bundle.jump_impulse.0@ == DEFAULT_JUMP_IMPULSE,
            bundle.acceleration.0@ == DEFAULT_ACCELERATION,
            bundle.max_slope_angle.cosine() == DEFAULT_SLOPE_COSINE,
    {
        MovementBundle::new(
            Scalar::from_raw(DEFAULT_DAMPING),
            Scalar::from_raw(DEFAULT_JUMP_IMPULSE),
            Scalar::from_raw(DEFAULT_ACCELERATION),
            MaxSlopeAngle::default(),
        )
    }
}

/// How the physics engine treats a body.
#[derive(Clone, Copy, Debug, PartialEq, Eq, Structural)]
pub enum RigidBody {
    /// Moved by forces and contacts.
    Dynamic,
    /// Never moves.
    Static,
    /// Moved only by its own velocity.
    Kinematic,
}

/// Which motions of a body the physics engine must not change.
#[derive(Clone, Copy, Debug, PartialEq, Eq, Structural)]
pub struct LockedAxes {
    pub translation_x: bool,
    pub translation_y: bool,
    pub rotation: bool,
}

/// A probe that sweeps a copy of a shape straight down and reports what it
/// meets.
#[derive(Clone, Copy, Debug, PartialEq, Eq, Structural)]
pub struct ShapeCaster {
    /// The size of the swept copy, relative to the shape it is made from.
    pub shape_scale: Scalar,
    /// How many subdivisions the engine uses when it scales a round shape.
    pub scale_subdivisions: u32,
    /// Where the sweep starts, relative to the character.
    pub origin: Vector,
    /// The angle, in radians, by which the swept copy is turned against
    /// the character.
    pub shape_rotation: Scalar,
    /// The direction of the sweep, in the character's frame.
    pub direction: Normal,
    /// How far the probe looks, in simulation units.
    pub max_time_of_impact: Scalar,
}

/// Raw relative size of the ground probe: a little smaller than the
/// character, so that touching a wall sideways is not a contact.
pub const GROUND_PROBE_SCALE: i64 = 990_000;

/// Subdivisions used when the probe's shape is scaled.
pub const GROUND_PROBE_SUBDIVISIONS: u32 = 10;

/// Raw reach of the ground probe: ten units.
pub const GROUND_PROBE_REACH: i64 = 10_000_000;

/// Everything a basic character controller adds to an entity whose
/// collision shape is a `C`.
#[derive(Debug)]
pub struct CharacterControllerBundle<C> {
    pub movement: MovementBundle,
    pub collider: C,
    pub rigid_body: RigidBody,
    pub locked_axes: LockedAxes,
    pub ground_caster: ShapeCaster,
    pub character_controller: CharacterController,
}

impl<C> CharacterControllerBundle<C> {
    /// A controller around `collider` with the default tuning: a dynamic
    /// body that cannot rotate, probing for ground with a copy of its shape
    /// scaled to 0.99 and not turned, swept from its own place ten units
    /// straight down.
    pub fn new(collider: C) -> (bundle: CharacterControllerBundle<C>)
        ensures
            bundle.collider == collider,
            bundle.movement.damping.0@ == DEFAULT_DAMPING,
            bundle.movement.jump_impulse.0@ == DEFAULT_JUMP_IMPULSE,
            bundle.movement.acceleration.0@ == DEFAULT_ACCELERATION,
            bundle.movement.max_slope_angle.cosine() == DEFAULT_SLOPE_COSINE,
            bundle.rigid_body == RigidBody::Dynamic,
            bundle.locked_axes == (LockedAxes {
                translation_x: false,
                translation_y: false,
                rotation: true,
            }),
            bundle.ground_caster.shape_scale@ == GROUND_PROBE_SCALE,
            bundle.ground_caster.scale_subdivisions == GROUND_PROBE_SUBDIVISIONS,
            bundle.ground_caster.origin.x@ == 0,
            bundle.ground_caster.origin.y@ == 0,
            bundle.ground_caster.shape_rotation@ == 0,
            bundle.ground_caster.direction.x() == 0,
            bundle.ground_caster.direction.y() == -SCALE,
            bundle.ground_caster.max_time_of_impact@ == GROUND_PROBE_REACH,
    {
        CharacterControllerBundle {
            movement: MovementBundle::default(),
            collider,
            rigid_body: RigidBody::Dynamic,
            locked_axes: LockedAxes { translation_x: false, translation_y: false, rotation: true },
            ground_caster: ShapeCaster {
                shape_scale: Scalar::from_raw(GROUND_PROBE_SCALE),
                scale_subdivisions: GROUND_PROBE_SUBDIVISIONS,
                origin: Vector::zero(),
                shape_rotation: Scalar::zero(),
                direction: Normal::down(),
                max_time_of_impact: Scalar::from_raw(GROUND_PROBE_REACH),
            },
            character_controller: CharacterController,
        }
    }

    /// The same controller with its tuning replaced.
    pub fn with_movement(
        self,
        damping: Scalar,
        jump_impulse: Scalar,
        acceleration: Scalar,
        max_slope_angle: MaxSlopeAngle,
    ) -> (bundle: CharacterControllerBundle<C>)
        ensures
            bundle == (CharacterControllerBundle {
                movement: MovementBundle {
                    damping: MovementDampingFactor(damping),
                    jump_impulse: JumpImpulse(jump_impulse),
                    acceleration: MovementAcceleration(acceleration),
                    max_slope_angle,
                },
                ..self
            }),
    {
        let mut bundle = self;
        bundle.movement = MovementBundle::new(damping, jump_impulse, acceleration, max_slope_angle);
        bundle
    }
}

/// A controlled character as the stages of a tick see it.
#[derive(Clone, Debug)]
pub struct Character {
    /// Sideways acceleration that a full `Move` asks for.
    pub acceleration: MovementAcceleration,
    /// Factor applied to sideways velocity at the end of every tick.
    pub damping: MovementDampingFactor,
    /// Upward velocity that a jump sets.
    pub jump_impulse: JumpImpulse,
    /// Steepest ground that counts as support; `None` lets all ground count.
    pub max_slope_angle: Option<MaxSlopeAngle>,
    /// The character's rotation in the world.
    pub rotation: Rotation,
    /// What the ground probe met this tick, as the physics engine reports it.
    pub shape_hits: Vec<ShapeHit>,
    /// The velocity that the physics engine integrates.
    pub linear_velocity: LinearVelocity,
    /// Present while the character stands on walkable ground. Derived from
    /// `shape_hits` once per tick, and written by nothing else.
    pub grounded: Option<Grounded>,
}

impl Character {
    /// A character with the given tuning, upright, at rest and in the air,
    /// whose probe has met nothing yet.
    pub fn new(movement: MovementBundle) -> (character: Character)
        ensures
            character.acceleration == movement.acceleration,
            character.damping == movement.damping,
            character.jump_impulse == movement.jump_impulse,
            character.max_slope_angle == Some(movement.max_slope_angle),
            character.rotation.cos() == SCALE,
            character.rotation.sin() == 0,
            character.shape_hits@.len() == 0,
            character.linear_velocity.x@ == 0,
            character.linear_velocity.y@ == 0,
            character.grounded is None,
    {
        Character {
            acceleration: movement.acceleration,
            damping: movement.damping,
            jump_impulse: movement.jump_impulse,
            max_slope_angle: Some(movement.max_slope_angle),
            rotation: Rotation::identity(),
            shape_hits: Vec::new(),
            linear_velocity: LinearVelocity::zero(),
            grounded: None,
        }
    }

    /// Whether the character stands on walkable ground.
    pub fn is_grounded(&self) -> (b: bool)
        ensures
            b == self.grounded is Some,
    {
        self.grounded.is_some()
    }
}

} // verus!
