use platformer_core::character::controller::{
    Character, CharacterController, CharacterControllerBundle, JumpImpulse, LinearVelocity,
    LockedAxes, MovementAcceleration, MovementAction, MovementBundle, MovementDampingFactor,
    RigidBody, ShapeHit,
};
use platformer_core::character::geometry::{
    unit_fraction, walkable, MaxSlopeAngle, Normal, Rotation, Vector,
};
use platformer_core::character::grounded::{is_supported, update_grounded};
use platformer_core::character::input::{
    gamepad_input, keyboard_input, GamepadState, KeyboardState,
};
use platformer_core::character::movement::{apply_movement_damping, movement};
use platformer_core::character::tick::{collect_input, resolve_tick, run_tick};
use platformer_core::scalar::Scalar;

/// One sixtieth of a second, in nanoseconds.
const SIXTIETH: u64 = 16_666_667;

fn raw(value: i64) -> Scalar {
    Scalar::from_raw(value)
}

fn limit(cosine: i64) -> MaxSlopeAngle {
    MaxSlopeAngle::from_cosine(raw(cosine)).unwrap()
}

/// A contact whose ground normal, for an upright character, is `(x, y)`.
fn ground(x: i64, y: i64) -> ShapeHit {
    ShapeHit { normal: Normal::new(raw(-x), raw(-y)).unwrap() }
}

fn tuned(damping: i64, jump: i64, acceleration: i64, cosine: i64) -> Character {
    Character::new(MovementBundle::new(raw(damping), raw(jump), raw(acceleration), limit(cosine)))
}

fn no_keys() -> KeyboardState {
    KeyboardState {
        key_a: false,
        arrow_left: false,
        key_d: false,
        arrow_right: false,
        space_just_pressed: false,
    }
}

#[test]
fn scenario_jump_on_ground_then_move_in_the_air() {
    // cos(pi / 4) is 0.707107 to six places.
    let character = tuned(900_000, 7_000_000, 30_000_000, 707_107);
    assert!(!character.is_grounded());
    assert_eq!(character.linear_velocity, LinearVelocity { x: raw(0), y: raw(0) });
    let mut characters = vec![character];

    characters[0].shape_hits = vec![ground(0, 1_000_000)];
    resolve_tick(&vec![MovementAction::Jump], SIXTIETH, &mut characters);
    assert!(characters[0].is_grounded());
    assert_eq!(characters[0].linear_velocity, LinearVelocity { x: raw(0), y: raw(7_000_000) });

    characters[0].shape_hits = Vec::new();
    let requests = vec![MovementAction::Move(Scalar::one()), MovementAction::Jump];
    resolve_tick(&requests, SIXTIETH, &mut characters);
    assert!(!characters[0].is_grounded());
    assert_eq!(characters[0].linear_velocity.x, raw(450_000));
    assert_eq!(characters[0].linear_velocity.y, raw(7_000_000));
}

#[test]
fn move_step_before_damping_is_half_a_unit() {
    let mut characters = vec![tuned(900_000, 7_000_000, 30_000_000, 707_107)];
    movement(SIXTIETH, &vec![MovementAction::Move(Scalar::one())], &mut characters);
    assert_eq!(characters[0].linear_velocity.x, raw(500_000));
    apply_movement_damping(&mut characters);
    assert_eq!(characters[0].linear_velocity.x, raw(450_000));
}

#[test]
fn without_slope_limit_any_contact_grounds() {
    let mut character = tuned(900_000, 7_000_000, 30_000_000, 1_000_000);
    character.max_slope_angle = None;
    // A wall to the side and a ceiling: neither is ground, both count.
    for hit in [ground(1_000_000, 0), ground(0, -1_000_000), ground(0, 0)] {
        character.shape_hits = vec![hit];
        let mut characters = vec![character.clone()];
        resolve_tick(&Vec::new(), SIXTIETH, &mut characters);
        assert!(characters[0].is_grounded());
    }
}

#[test]
fn without_slope_limit_no_contact_does_not_ground() {
    let mut character = tuned(900_000, 7_000_000, 30_000_000, 1_000_000);
    character.max_slope_angle = None;
    let mut characters = vec![character];
    update_grounded(&mut characters);
    assert!(!characters[0].is_grounded());
}

#[test]
fn contacts_steeper_than_the_limit_do_not_ground() {
    // Limit of 45 degrees; normals at 60 and 90 degrees from up, and one
    // pointing down.
    let mut character = tuned(900_000, 7_000_000, 30_000_000, 707_107);
    character.shape_hits =
        vec![ground(866_025, 500_000), ground(-1_000_000, 0), ground(0, -1_000_000)];
    let mut characters = vec![character];
    update_grounded(&mut characters);
    assert!(!characters[0].is_grounded());
    resolve_tick(&vec![MovementAction::Jump], SIXTIETH, &mut characters);
    assert!(!characters[0].is_grounded());
    assert_eq!(characters[0].linear_velocity.y, raw(0));
}

#[test]
fn one_walkable_contact_among_many_grounds() {
    let mut character = tuned(900_000, 7_000_000, 30_000_000, 707_107);
    character.shape_hits =
        vec![ground(1_000_000, 0), ground(500_000, 866_025), ground(0, -1_000_000)];
    let mut characters = vec![character];
    update_grounded(&mut characters);
    assert!(characters[0].is_grounded());
}

#[test]
fn grounding_does_not_outlive_its_contacts() {
    let mut character = tuned(900_000, 7_000_000, 30_000_000, 707_107);
    character.shape_hits = vec![ground(0, 1_000_000)];
    let mut characters = vec![character];
    update_grounded(&mut characters);
    assert!(characters[0].is_grounded());
    characters[0].shape_hits.clear();
    update_grounded(&mut characters);
    assert!(!characters[0].is_grounded());
}

#[test]
fn slope_test_at_the_limit_and_beyond() {
    let upright = Rotation::identity();
    // A 3-4-5 triangle: the normal (0.6, 0.8) has a cosine of exactly 0.8.
    let normal = ground(600_000, 800_000).normal;
    assert!(walkable(&upright, &normal, Some(limit(800_000))));
    assert!(walkable(&upright, &normal, Some(limit(799_999))));
    assert!(!walkable(&upright, &normal, Some(limit(800_001))));
    // The length of the normal does not matter, only its direction.
    let short = ground(300_000, 400_000).normal;
    assert!(walkable(&upright, &short, Some(limit(800_000))));
    assert!(!walkable(&upright, &short, Some(limit(800_001))));
    // The zero vector has no direction.
    let zero = ground(0, 0).normal;
    assert!(!walkable(&upright, &zero, Some(limit(-1_000_000))));
    assert!(walkable(&upright, &zero, None));
}

#[test]
fn slope_limit_beyond_a_right_angle() {
    let upright = Rotation::identity();
    // Limit of 120 degrees: cosine of minus one half.
    let wide = Some(limit(-500_000));
    assert!(walkable(&upright, &ground(1_000_000, 0).normal, wide));
    assert!(walkable(&upright, &ground(866_025, -499_999).normal, wide));
    assert!(!walkable(&upright, &ground(866_025, -500_001).normal, wide));
    assert!(!walkable(&upright, &ground(0, -1_000_000).normal, wide));
    // A limit of 180 degrees lets every direction through.
    assert!(walkable(&upright, &ground(0, -1_000_000).normal, Some(limit(-1_000_000))));
    // A limit of zero degrees lets only "up" through.
    assert!(walkable(&upright, &ground(0, 1_000_000).normal, Some(limit(1_000_000))));
    assert!(!walkable(&upright, &ground(1, 1_000_000).normal, Some(limit(1_000_000))));
}

#[test]
fn slope_test_accounts_for_rotation() {
    let flat = ground(0, 1_000_000).normal;
    let quarter_turn = Rotation::new(raw(0), raw(1_000_000)).unwrap();
    let half_turn = Rotation::new(raw(-1_000_000), raw(0)).unwrap();
    let narrow = Some(limit(707_107));
    assert!(walkable(&Rotation::identity(), &flat, narrow));
    assert!(!walkable(&quarter_turn, &flat, narrow));
    assert!(!walkable(&half_turn, &flat, narrow));
    // Turned upside down, the character stands on what is a ceiling to
    // an upright one.
    let ceiling = ground(0, -1_000_000).normal;
    assert!(walkable(&half_turn, &ceiling, narrow));
    let hits = vec![ShapeHit { normal: flat }, ShapeHit { normal: ceiling }];
    assert!(is_supported(&hits, &half_turn, narrow));
    assert!(!is_supported(&hits, &quarter_turn, narrow));
}

#[test]
fn jump_in_the_air_changes_nothing() {
    let mut character = tuned(900_000, 7_000_000, 30_000_000, 707_107);
    character.linear_velocity = LinearVelocity { x: raw(1_250_000), y: raw(-3_000_000) };
    for _ in 0..3 {
        character.apply_action(&MovementAction::Jump, SIXTIETH);
        assert_eq!(
            character.linear_velocity,
            LinearVelocity { x: raw(1_250_000), y: raw(-3_000_000) }
        );
        assert!(!character.is_grounded());
    }
}

#[test]
fn jump_on_the_ground_overwrites_vertical_velocity() {
    for before in [-3_000_000, 0, 250_000, 99_000_000] {
        let mut character = tuned(900_000, 7_000_000, 30_000_000, 707_107);
        character.shape_hits = vec![ground(0, 1_000_000)];
        character.classify();
        character.linear_velocity = LinearVelocity { x: raw(1_250_000), y: raw(before) };
        character.apply_action(&MovementAction::Jump, SIXTIETH);
        assert_eq!(
            character.linear_velocity,
            LinearVelocity { x: raw(1_250_000), y: raw(7_000_000) }
        );
    }
}

#[test]
fn steady_move_without_damping_grows_linearly() {
    // Acceleration 30, half a push per tick, ticks of a tenth of a second:
    // each tick adds 0.5 * 30 * 0.1 = 1.5.
    let mut character = tuned(1_000_000, 7_000_000, 30_000_000, 707_107);
    character.linear_velocity.x = raw(-2_000_000);
    let mut characters = vec![character];
    let requests = vec![MovementAction::Move(raw(500_000))];
    for tick in 1..=20i64 {
        resolve_tick(&requests, 100_000_000, &mut characters);
        assert_eq!(characters[0].linear_velocity.x, raw(-2_000_000 + tick * 1_500_000));
    }
}

#[test]
fn steady_move_stops_at_the_end_of_the_range() {
    let mut character = tuned(1_000_000, 7_000_000, 30_000_000, 707_107);
    character.linear_velocity.x = raw(i64::MAX - 2_000_000);
    let mut characters = vec![character];
    let requests = vec![MovementAction::Move(raw(500_000))];
    resolve_tick(&requests, 100_000_000, &mut characters);
    assert_eq!(characters[0].linear_velocity.x, raw(i64::MAX - 500_000));
    resolve_tick(&requests, 100_000_000, &mut characters);
    assert_eq!(characters[0].linear_velocity.x, raw(i64::MAX));
    resolve_tick(&requests, 100_000_000, &mut characters);
    assert_eq!(characters[0].linear_velocity.x, raw(i64::MAX));
}

#[test]
fn idle_ticks_decay_geometrically() {
    let mut character = tuned(900_000, 7_000_000, 0, 707_107);
    character.linear_velocity = LinearVelocity { x: raw(10_000_000), y: raw(2_000_000) };
    let mut characters = vec![character];
    let mut expected = 10_000_000i64;
    for _ in 0..6 {
        resolve_tick(&Vec::new(), SIXTIETH, &mut characters);
        expected = expected * 9 / 10;
        assert_eq!(characters[0].linear_velocity.x, raw(expected));
        assert_eq!(characters[0].linear_velocity.y, raw(2_000_000));
    }
    assert_eq!(expected, 5_314_410);
}

#[test]
fn damping_rounds_to_the_nearest_step_on_both_sides_of_zero() {
    for (before, after) in [(5, 5), (4, 4), (15, 14), (-15, -14), (6, 5), (-6, -5), (0, 0)] {
        let mut character = tuned(900_000, 7_000_000, 0, 707_107);
        character.linear_velocity.x = raw(before);
        character.apply_damping();
        assert_eq!(character.linear_velocity.x, raw(after), "damping {}", before);
    }
}

#[test]
fn zero_acceleration_ignores_moves() {
    let mut character = tuned(900_000, 7_000_000, 0, 707_107);
    character.linear_velocity.x = raw(1_000_000);
    let mut characters = vec![character];
    let requests = vec![MovementAction::Move(Scalar::one()), MovementAction::Move(raw(-250_000))];
    resolve_tick(&requests, SIXTIETH, &mut characters);
    assert_eq!(characters[0].linear_velocity.x, raw(900_000));
}

#[test]
fn damping_of_one_keeps_velocity() {
    let mut character = tuned(1_000_000, 7_000_000, 30_000_000, 707_107);
    character.linear_velocity.x = raw(-123_456_789);
    character.apply_damping();
    assert_eq!(character.linear_velocity.x, raw(-123_456_789));
}

#[test]
fn moves_of_several_sources_add_up() {
    let mut characters = vec![tuned(1_000_000, 7_000_000, 60_000_000, 707_107)];
    let requests = vec![
        MovementAction::Move(Scalar::one()),
        MovementAction::Move(raw(500_000)),
        MovementAction::Move(raw(-250_000)),
    ];
    // 60 per second squared over a tenth of a second: 6, 3 and -1.5.
    movement(100_000_000, &requests, &mut characters);
    assert_eq!(characters[0].linear_velocity.x, raw(7_500_000));
}

#[test]
fn movement_reaches_every_character() {
    let mut slow = tuned(1_000_000, 5_000_000, 10_000_000, 707_107);
    slow.shape_hits = vec![ground(0, 1_000_000)];
    let fast = tuned(1_000_000, 9_000_000, 40_000_000, 707_107);
    let mut characters = vec![slow, fast];
    update_grounded(&mut characters);
    let requests = vec![MovementAction::Move(raw(-1_000_000)), MovementAction::Jump];
    movement(500_000_000, &requests, &mut characters);
    assert_eq!(
        characters[0].linear_velocity,
        LinearVelocity { x: raw(-5_000_000), y: raw(5_000_000) }
    );
    assert_eq!(characters[1].linear_velocity, LinearVelocity { x: raw(-20_000_000), y: raw(0) });
    assert_eq!(characters.len(), 2);
}

#[test]
fn jump_uses_the_grounding_of_the_same_tick() {
    // In the air before the tick, on the ground in it: the jump counts.
    let mut character = tuned(900_000, 7_000_000, 30_000_000, 707_107);
    character.shape_hits = vec![ground(0, 1_000_000)];
    let mut characters = vec![character];
    resolve_tick(&vec![MovementAction::Jump], SIXTIETH, &mut characters);
    assert_eq!(characters[0].linear_velocity.y, raw(7_000_000));

    // On the ground before the tick, in the air in it: the jump is dropped.
    characters[0].linear_velocity.y = raw(-1_000_000);
    characters[0].shape_hits.clear();
    assert!(characters[0].is_grounded());
    resolve_tick(&vec![MovementAction::Jump], SIXTIETH, &mut characters);
    assert_eq!(characters[0].linear_velocity.y, raw(-1_000_000));
    assert!(!characters[0].is_grounded());
}

#[test]
fn keyboard_left_and_right() {
    let mut queue = Vec::new();
    keyboard_input(&KeyboardState { key_a: true, ..no_keys() }, &mut queue);
    keyboard_input(&KeyboardState { arrow_left: true, ..no_keys() }, &mut queue);
    keyboard_input(&KeyboardState { key_d: true, ..no_keys() }, &mut queue);
    keyboard_input(&KeyboardState { arrow_right: true, ..no_keys() }, &mut queue);
    keyboard_input(&KeyboardState { key_a: true, arrow_left: true, ..no_keys() }, &mut queue);
    assert_eq!(
        queue,
        vec![
            MovementAction::Move(raw(-1_000_000)),
            MovementAction::Move(raw(-1_000_000)),
            MovementAction::Move(raw(1_000_000)),
            MovementAction::Move(raw(1_000_000)),
            MovementAction::Move(raw(-1_000_000)),
        ]
    );
}

#[test]
fn keyboard_both_or_neither_direction_asks_for_nothing() {
    let mut queue = vec![MovementAction::Jump];
    keyboard_input(&no_keys(), &mut queue);
    keyboard_input(&KeyboardState { key_a: true, key_d: true, ..no_keys() }, &mut queue);
    keyboard_input(&KeyboardState { arrow_left: true, key_d: true, ..no_keys() }, &mut queue);
    keyboard_input(
        &KeyboardState { key_a: true, arrow_left: true, key_d: true, arrow_right: true, ..no_keys() },
        &mut queue,
    );
    assert_eq!(queue, vec![MovementAction::Jump]);
}

#[test]
fn keyboard_jump_follows_move() {
    let mut queue = Vec::new();
    keyboard_input(&KeyboardState { key_d: true, space_just_pressed: true, ..no_keys() }, &mut queue);
    keyboard_input(&KeyboardState { space_just_pressed: true, ..no_keys() }, &mut queue);
    assert_eq!(
        queue,
        vec![MovementAction::Move(raw(1_000_000)), MovementAction::Jump, MovementAction::Jump]
    );
}

#[test]
fn no_gamepad_asks_for_nothing() {
    let mut queue = vec![MovementAction::Move(raw(5))];
    gamepad_input(&Vec::new(), &mut queue);
    assert_eq!(queue, vec![MovementAction::Move(raw(5))]);
}

#[test]
fn each_gamepad_asks_for_itself() {
    let pads = vec![
        GamepadState { left_stick_x: Some(raw(-350_000)), south_just_pressed: false },
        GamepadState { left_stick_x: None, south_just_pressed: true },
        GamepadState { left_stick_x: Some(raw(1)), south_just_pressed: true },
        GamepadState { left_stick_x: None, south_just_pressed: false },
    ];
    let mut queue = Vec::new();
    gamepad_input(&pads, &mut queue);
    assert_eq!(
        queue,
        vec![
            MovementAction::Move(raw(-350_000)),
            MovementAction::Jump,
            MovementAction::Move(raw(1)),
            MovementAction::Jump,
        ]
    );
}

#[test]
fn a_stick_at_rest_asks_for_nothing() {
    let mut queue = Vec::new();
    gamepad_input(
        &vec![GamepadState { left_stick_x: Some(raw(0)), south_just_pressed: false }],
        &mut queue,
    );
    assert_eq!(queue, Vec::new());

    // The button of a gamepad at rest still counts.
    gamepad_input(
        &vec![
            GamepadState { left_stick_x: Some(raw(0)), south_just_pressed: true },
            GamepadState { left_stick_x: Some(raw(0)), south_just_pressed: false },
        ],
        &mut queue,
    );
    assert_eq!(queue, vec![MovementAction::Jump]);
}

#[test]
fn a_stick_at_rest_leaves_the_keyboard_its_say() {
    let keyboard = KeyboardState { key_a: true, ..no_keys() };
    let pads = vec![GamepadState { left_stick_x: Some(raw(0)), south_just_pressed: false }];
    assert_eq!(collect_input(&keyboard, &pads), vec![MovementAction::Move(raw(-1_000_000))]);
}

#[test]
fn keyboard_comes_before_gamepads_in_the_queue() {
    let keyboard = KeyboardState { arrow_right: true, space_just_pressed: true, ..no_keys() };
    let pads = vec![GamepadState { left_stick_x: Some(raw(250_000)), south_just_pressed: false }];
    assert_eq!(
        collect_input(&keyboard, &pads),
        vec![
            MovementAction::Move(raw(1_000_000)),
            MovementAction::Jump,
            MovementAction::Move(raw(250_000)),
        ]
    );
    assert_eq!(collect_input(&no_keys(), &Vec::new()), Vec::new());
}

#[test]
fn whole_tick_from_devices() {
    let mut character = tuned(900_000, 7_000_000, 30_000_000, 707_107);
    character.shape_hits = vec![ground(0, 1_000_000)];
    let mut characters = vec![character];
    let keyboard = KeyboardState { key_d: true, space_just_pressed: true, ..no_keys() };
    let pads = vec![GamepadState { left_stick_x: Some(raw(1_000_000)), south_just_pressed: false }];
    run_tick(&keyboard, &pads, SIXTIETH, &mut characters);
    // Two full pushes of half a unit each, then damping.
    assert_eq!(
        characters[0].linear_velocity,
        LinearVelocity { x: raw(900_000), y: raw(7_000_000) }
    );
    assert!(characters[0].is_grounded());
    // Nothing of this tick's input is left for the next one.
    run_tick(&no_keys(), &Vec::new(), SIXTIETH, &mut characters);
    assert_eq!(
        characters[0].linear_velocity,
        LinearVelocity { x: raw(810_000), y: raw(7_000_000) }
    );
}

#[test]
fn tick_on_no_characters() {
    let mut characters: Vec<Character> = Vec::new();
    run_tick(&no_keys(), &Vec::new(), SIXTIETH, &mut characters);
    assert!(characters.is_empty());
}

#[test]
fn new_character_is_at_rest_in_the_air() {
    let character = tuned(900_000, 7_000_000, 30_000_000, 707_107);
    assert!(!character.is_grounded());
    assert!(character.shape_hits.is_empty());
    assert_eq!(character.linear_velocity, LinearVelocity::zero());
    assert_eq!(character.acceleration, MovementAcceleration(raw(30_000_000)));
    assert_eq!(character.damping, MovementDampingFactor(raw(900_000)));
    assert_eq!(character.jump_impulse, JumpImpulse(raw(7_000_000)));
    assert_eq!(character.max_slope_angle.unwrap().get_cosine(), raw(707_107));
    assert_eq!(character.rotation.get_cos(), raw(1_000_000));
    assert_eq!(character.rotation.get_sin(), raw(0));
}

#[test]
fn default_tuning() {
    let bundle = MovementBundle::default();
    assert_eq!(bundle.damping, MovementDampingFactor(raw(900_000)));
    assert_eq!(bundle.jump_impulse, JumpImpulse(raw(7_000_000)));
    assert_eq!(bundle.acceleration, MovementAcceleration(raw(30_000_000)));
    // cos(0.45 * pi) = cos(81 degrees) = 0.156434...
    let expected = ((0.45f64 * std::f64::consts::PI).cos() * 1e6).round() as i64;
    assert_eq!(bundle.max_slope_angle.get_cosine(), raw(expected));
    assert_eq!(MaxSlopeAngle::default().get_cosine(), raw(156_434));
}

#[test]
fn controller_bundle_defaults_and_reconfiguration() {
    let bundle = CharacterControllerBundle::new("circle of radius ten");
    assert_eq!(bundle.collider, "circle of radius ten");
    assert_eq!(bundle.rigid_body, RigidBody::Dynamic);
    assert_eq!(
        bundle.locked_axes,
        LockedAxes { translation_x: false, translation_y: false, rotation: true }
    );
    assert_eq!(bundle.ground_caster.shape_scale, raw(990_000));
    assert_eq!(bundle.ground_caster.scale_subdivisions, 10);
    assert_eq!(bundle.ground_caster.max_time_of_impact, raw(10_000_000));
    assert_eq!(bundle.ground_caster.origin, Vector::zero());
    assert_eq!(bundle.ground_caster.shape_rotation, raw(0));
    assert_eq!(bundle.ground_caster.direction, Normal::down());
    assert_eq!(Normal::down(), Normal::new(raw(0), raw(-1_000_000)).unwrap());
    assert_eq!(bundle.character_controller, CharacterController);
    assert_eq!(bundle.movement.acceleration, MovementAcceleration(raw(30_000_000)));

    let tuned = bundle.with_movement(raw(920_000), raw(400_000_000), raw(1_250_000_000), limit(866_025));
    assert_eq!(tuned.collider, "circle of radius ten");
    assert_eq!(tuned.movement.damping, MovementDampingFactor(raw(920_000)));
    assert_eq!(tuned.movement.jump_impulse, JumpImpulse(raw(400_000_000)));
    assert_eq!(tuned.movement.acceleration, MovementAcceleration(raw(1_250_000_000)));
    assert_eq!(tuned.movement.max_slope_angle.get_cosine(), raw(866_025));
    assert_eq!(tuned.ground_caster.max_time_of_impact, raw(10_000_000));
    assert_eq!(tuned.ground_caster.shape_rotation, raw(0));
    assert_eq!(tuned.rigid_body, RigidBody::Dynamic);
}

#[test]
fn unit_fractions() {
    for (value, expected) in
        [(0, true), (1_000_000, true), (-1_000_000, true), (1_000_001, false), (-1_000_001, false)]
    {
        assert_eq!(unit_fraction(raw(value)), expected);
    }
    assert!(!unit_fraction(raw(i64::MAX)));
    assert!(!unit_fraction(raw(i64::MIN)));
}

#[test]
fn directions_outside_the_unit_square_are_refused() {
    assert!(Normal::new(raw(1_000_000), raw(-1_000_000)).is_some());
    assert!(Normal::new(raw(1_000_001), raw(0)).is_none());
    assert!(Normal::new(raw(0), raw(-1_000_001)).is_none());
    assert!(Rotation::new(raw(-1_000_000), raw(1_000_000)).is_some());
    assert!(Rotation::new(raw(0), raw(1_000_001)).is_none());
    assert!(Rotation::new(raw(-1_000_001), raw(0)).is_none());
    assert!(MaxSlopeAngle::from_cosine(raw(1_000_000)).is_some());
    assert!(MaxSlopeAngle::from_cosine(raw(-1_000_000)).is_some());
    assert!(MaxSlopeAngle::from_cosine(raw(1_000_001)).is_none());
    assert!(MaxSlopeAngle::from_cosine(raw(-1_000_001)).is_none());
    let normal = Normal::new(raw(-600_000), raw(800_000)).unwrap();
    assert_eq!((normal.get_x(), normal.get_y()), (raw(-600_000), raw(800_000)));
}
