use asteroids_core::geometry::Vec2i;
use asteroids_core::kinematics::{Acceleration, Direction};
use asteroids_core::player::{
    calculate_velocity, can_fire, move_player_translation, player_acceleration_step,
    player_rotation_step, player_shooting_step, propulsion_effect_step, InputCommand,
    DRAG_BASE_FACTOR_MS, LASER_COOLDOWN_MS, ROCKET_FIRE_LIFETIME_MS,
};

fn cmd(turn_left: bool, turn_right: bool, thrust: bool, fire: bool) -> InputCommand {
    InputCommand { turn_left, turn_right, thrust, fire }
}

#[test]
fn turning_rotates_and_cuts_thrust() {
    let mut acc = Acceleration { acceleration: 200, x: 30, y: 40 };
    let mut dir = Direction::default();
    player_rotation_step(&mut acc, &mut dir, &cmd(true, false, false, false));
    assert_eq!(dir.rotation_angle, 4166);
    assert_eq!(acc.acceleration, 0);
    assert_eq!((acc.x, acc.y), (30, 40));
    player_rotation_step(&mut acc, &mut dir, &cmd(false, true, false, false));
    assert_eq!(dir.rotation_angle, 0);
}

#[test]
fn no_turn_key_changes_nothing() {
    let mut acc = Acceleration { acceleration: 200, x: 30, y: 40 };
    let mut dir = Direction { rotation_angle: 123_456 };
    player_rotation_step(&mut acc, &mut dir, &cmd(false, false, true, true));
    assert_eq!(dir.rotation_angle, 123_456);
    assert_eq!(acc.acceleration, 200);
}

#[test]
fn thrust_ramps_and_translates_along_the_heading() {
    let mut acc = Acceleration::default();
    // Facing straight up: sine 0, cosine 1.
    player_acceleration_step(&mut acc, 0, 1000, &cmd(false, false, true, false));
    assert_eq!(acc.acceleration, 1);
    assert_eq!((acc.x, acc.y), (0, 1));
    player_acceleration_step(&mut acc, 0, 1000, &cmd(false, false, true, false));
    assert_eq!(acc.acceleration, 2);
    assert_eq!((acc.x, acc.y), (0, 3));
}

#[test]
fn releasing_thrust_stops_at_once() {
    let mut acc = Acceleration { acceleration: 321, x: 5, y: 6 };
    player_acceleration_step(&mut acc, 0, 1000, &cmd(false, false, false, false));
    assert_eq!(acc.acceleration, 0);
    assert_eq!((acc.x, acc.y), (5, 6));
}

#[test]
fn the_controller_moves_by_the_scaled_velocity() {
    let acc = Acceleration { acceleration: 100, x: 300, y: -300 };
    let t = move_player_translation(Vec2i { x: 10, y: 20 }, &acc);
    // 300 * 25 / 3 = 2500 each way.
    assert_eq!(t, Vec2i { x: 2510, y: -2480 });
}

#[test]
fn momentum_carries_only_where_directions_agree() {
    let t = Vec2i { x: 600, y: -600 };
    let r = calculate_velocity(t, Vec2i { x: 300, y: 300 });
    // x agrees (both positive): gains 300 * 25 / 3 = 2500; y disagrees.
    assert_eq!(r, Vec2i { x: 3100, y: -600 });
    let r = calculate_velocity(t, Vec2i { x: 0, y: 0 });
    assert_eq!(r, t);
}

#[test]
fn the_trigger_warms_exactly_at_the_cooldown() {
    assert!(!can_fire(LASER_COOLDOWN_MS - 1));
    assert!(can_fire(LASER_COOLDOWN_MS));
    assert!(can_fire(LASER_COOLDOWN_MS + 1));
}

#[test]
fn a_shot_needs_the_key_and_a_warm_trigger() {
    let acc = Acceleration::default();
    assert!(player_shooting_step(&cmd(false, false, false, false), None, &acc, 0, 1000).is_none());
    assert!(
        player_shooting_step(&cmd(false, false, false, true), Some(100), &acc, 0, 1000).is_none()
    );
    // Never having fired counts as warm.
    assert!(player_shooting_step(&cmd(false, false, false, true), None, &acc, 0, 1000).is_some());
    assert!(
        player_shooting_step(&cmd(false, false, false, true), Some(250), &acc, 0, 1000).is_some()
    );
}

#[test]
fn a_shot_flies_along_the_heading_with_agreeing_momentum() {
    // Facing up with upward momentum: the boost and the carry add.
    let acc = Acceleration { acceleration: 100, x: 0, y: 300 };
    let v = player_shooting_step(&cmd(false, false, false, true), None, &acc, 0, 1000).unwrap();
    assert_eq!(v, Vec2i { x: 0, y: 500_000 + 2500 });
    // Facing up while drifting down: the carry is dropped.
    let acc = Acceleration { acceleration: 100, x: 0, y: -300 };
    let v = player_shooting_step(&cmd(false, false, false, true), None, &acc, 0, 1000).unwrap();
    assert_eq!(v, Vec2i { x: 0, y: 500_000 });
}

#[test]
fn no_thrust_means_no_propulsion_effects() {
    let plan = propulsion_effect_step(&Acceleration::default());
    assert!(!plan.spawn_fire);
    assert!(plan.drag.is_none());
}

#[test]
fn thrust_always_shows_a_flame_and_sometimes_debris() {
    let acc = Acceleration { acceleration: 1, x: 0, y: 0 };
    for _ in 0..100 {
        let plan = propulsion_effect_step(&acc);
        assert!(plan.spawn_fire);
        assert_eq!(plan.fire_lifetime_ms, ROCKET_FIRE_LIFETIME_MS);
        if let Some(d) = plan.drag {
            assert!((-25..=25).contains(&d.tilt_deg));
            assert!((DRAG_BASE_FACTOR_MS..=DRAG_BASE_FACTOR_MS + 999).contains(&d.timers.0.period));
            assert_eq!(d.lifetime_ms, d.timers.2.period);
        }
    }
}
