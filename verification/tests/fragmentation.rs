use asteroids_core::geometry::{Vec2i, Vec3i};
use asteroids_core::meteor::{fragment, DestroyedMeteor, FRAGMENT_OFFSET, PI_MILLI};

fn destroyed(level: u8, vx: i64, vy: i64) -> DestroyedMeteor {
    DestroyedMeteor {
        weight: 10_000,
        kind: 0,
        level,
        velocity: Vec2i { x: vx, y: vy },
        position: Vec3i { x: 100, y: 200, z: 5 },
    }
}

#[test]
fn a_body_below_the_cap_splits_into_exactly_two() {
    let children = fragment(&destroyed(1, 1000, 0));
    assert_eq!(children.len(), 2);
    for c in &children {
        assert_eq!(c.level, 2);
        assert_eq!(c.weight, 5_000);
        assert_eq!(c.kind, 0);
        assert!((0..=PI_MILLI).contains(&c.angvel));
        assert_eq!(c.restitution, 1000);
    }
}

#[test]
fn a_body_at_the_cap_produces_no_children() {
    assert!(fragment(&destroyed(3, 1000, 0)).is_empty());
}

#[test]
fn children_leave_a_quarter_turn_off_the_parent_at_half_pace() {
    // Parent moving along +x: the first child's raw direction is +y, the
    // second's -y; both at half the raw pace.
    let children = fragment(&destroyed(1, 1000, 0));
    assert_eq!(children[0].linvel, Vec2i { x: 0, y: 500 });
    assert_eq!(children[1].linvel, Vec2i { x: 0, y: -500 });
    assert_eq!(children[0].init_position, Vec3i { x: 100, y: 200 + FRAGMENT_OFFSET, z: 5 });
    assert_eq!(children[1].init_position, Vec3i { x: 100, y: 200 - FRAGMENT_OFFSET, z: 5 });
}

#[test]
fn separation_is_normalised_to_the_fixed_offset() {
    // Direction (-400, 300) has length 500: the offset scales to
    // (-8000, 6000), ten units from the impact point.
    let children = fragment(&destroyed(2, 300, 400));
    assert_eq!(children[0].linvel, Vec2i { x: -200, y: 150 });
    assert_eq!(children[0].init_position, Vec3i { x: 100 - 8000, y: 200 + 6000, z: 5 });
    assert_eq!(children[1].linvel, Vec2i { x: 200, y: -150 });
    assert_eq!(children[1].init_position, Vec3i { x: 100 + 8000, y: 200 - 6000, z: 5 });
    for c in &children {
        assert_eq!(c.level, 3);
    }
}

#[test]
fn the_two_children_separate_in_opposite_directions() {
    let m = destroyed(1, 12_345, -6_789);
    let children = fragment(&m);
    let o0 = (
        children[0].init_position.x - m.position.x,
        children[0].init_position.y - m.position.y,
    );
    let o1 = (
        children[1].init_position.x - m.position.x,
        children[1].init_position.y - m.position.y,
    );
    assert_eq!(o1.0, -o0.0);
    assert_eq!(o1.1, -o0.1);
    assert_eq!(children[1].linvel.x, -children[0].linvel.x);
    assert_eq!(children[1].linvel.y, -children[0].linvel.y);
}

#[test]
fn a_motionless_body_splits_in_place() {
    let children = fragment(&destroyed(1, 0, 0));
    assert_eq!(children.len(), 2);
    for c in &children {
        assert_eq!(c.init_position, Vec3i { x: 100, y: 200, z: 5 });
        assert_eq!(c.linvel, Vec2i { x: 0, y: 0 });
    }
}
