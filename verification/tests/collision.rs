use asteroids_core::collision::{
    apply_laser_direction_on_meteor, get_entities_touched, laser_direction_of, resolve_collisions,
    CollisionEvent, LaserState, MeteorBody,
};
use asteroids_core::geometry::{Vec2i, Vec3i};
use asteroids_core::meteor::DestroyedMeteor;

fn laser(id: u64, vx: i64, vy: i64) -> LaserState {
    LaserState { id, velocity: Vec2i { x: vx, y: vy } }
}

fn meteor(id: u64, level: u8) -> MeteorBody {
    MeteorBody {
        id,
        level,
        weight: 10_000,
        velocity: Vec2i { x: 300, y: -400 },
        position: Vec3i { x: 1, y: 2, z: 3 },
    }
}

#[test]
fn laser_direction_is_the_pair_of_signs() {
    assert_eq!(laser_direction_of(&Vec2i { x: 37, y: -2 }), Vec2i { x: 1, y: -1 });
    // A zero component counts as negative, as the sign test has always
    // read it.
    assert_eq!(laser_direction_of(&Vec2i { x: 0, y: 0 }), Vec2i { x: -1, y: -1 });
}

#[test]
fn mirroring_flips_only_the_axes_that_disagree() {
    let m = Vec2i { x: 5, y: -7 };
    assert_eq!(apply_laser_direction_on_meteor(&m, Vec2i { x: 1, y: -1 }), Vec2i { x: 5, y: -7 });
    assert_eq!(apply_laser_direction_on_meteor(&m, Vec2i { x: -1, y: 1 }), Vec2i { x: -5, y: 7 });
    assert_eq!(apply_laser_direction_on_meteor(&m, Vec2i { x: 1, y: 1 }), Vec2i { x: 5, y: 7 });
}

#[test]
fn touched_pairs_are_marked_and_repeats_dropped() {
    let mut processed: Vec<u64> = Vec::new();
    let r = get_entities_touched(&CollisionEvent::Started(1, 2), &mut processed);
    assert_eq!(r, Some((1, 2)));
    assert_eq!(processed, vec![1, 2]);
    // Either entity already processed blocks the pair.
    let r = get_entities_touched(&CollisionEvent::Started(2, 3), &mut processed);
    assert_eq!(r, None);
    assert_eq!(processed, vec![1, 2]);
    // Stop events never count.
    let r = get_entities_touched(&CollisionEvent::Stopped(4, 5), &mut processed);
    assert_eq!(r, None);
}

#[test]
fn one_hit_destroys_despawns_and_queues_fragmentation() {
    let events = vec![CollisionEvent::Started(1, 2)];
    let lasers = vec![laser(1, 100, 100)];
    let meteors = vec![meteor(2, 1)];
    let out = resolve_collisions(&events, &lasers, &meteors, false);
    assert_eq!(out.fragments, vec![Vec3i { x: 1, y: 2, z: 3 }]);
    assert_eq!(out.despawned, vec![1, 2]);
    assert_eq!(
        out.destroyed,
        vec![DestroyedMeteor {
            weight: 10_000,
            kind: 0,
            level: 1,
            // x agrees with the approach and stays; y is flipped toward it.
            velocity: Vec2i { x: 300, y: 400 },
            position: Vec3i { x: 1, y: 2, z: 3 },
        }]
    );
}

#[test]
fn duplicate_reports_of_one_contact_resolve_once() {
    let events = vec![CollisionEvent::Started(1, 2), CollisionEvent::Started(2, 1)];
    let lasers = vec![laser(1, 100, 100)];
    let meteors = vec![meteor(2, 1)];
    let out = resolve_collisions(&events, &lasers, &meteors, true);
    assert_eq!(out.fragments.len(), 1);
    assert_eq!(out.destroyed.len(), 1);
    assert_eq!(out.despawned, vec![1, 2]);
}

#[test]
fn deepest_level_bodies_despawn_without_children() {
    let events = vec![CollisionEvent::Started(1, 2)];
    let lasers = vec![laser(1, 100, 100)];
    let meteors = vec![meteor(2, 3)];
    let out = resolve_collisions(&events, &lasers, &meteors, false);
    assert_eq!(out.fragments.len(), 1);
    assert!(out.destroyed.is_empty());
    assert_eq!(out.despawned, vec![1, 2]);
}

#[test]
fn first_pair_only_unless_toggled() {
    let events = vec![CollisionEvent::Started(1, 2), CollisionEvent::Started(3, 4)];
    let lasers = vec![laser(1, 100, 100), laser(3, -100, -100)];
    let meteors = vec![meteor(2, 1), meteor(4, 2)];
    let first_only = resolve_collisions(&events, &lasers, &meteors, false);
    assert_eq!(first_only.destroyed.len(), 1);
    assert_eq!(first_only.despawned, vec![1, 2]);
    let all = resolve_collisions(&events, &lasers, &meteors, true);
    assert_eq!(all.destroyed.len(), 2);
    assert_eq!(all.despawned, vec![1, 2, 3, 4]);
}

#[test]
fn contact_without_a_projectile_is_ignored_but_still_marked() {
    // Two meteors touch, then one of them is hit by a projectile in the
    // same tick: the first report marks both, so the second is dropped.
    let events = vec![CollisionEvent::Started(2, 4), CollisionEvent::Started(1, 2)];
    let lasers = vec![laser(1, 100, 100)];
    let meteors = vec![meteor(2, 1), meteor(4, 1)];
    let out = resolve_collisions(&events, &lasers, &meteors, true);
    assert!(out.destroyed.is_empty());
    assert!(out.despawned.is_empty());
    assert!(out.fragments.is_empty());
}

#[test]
fn stop_events_resolve_nothing() {
    let events = vec![CollisionEvent::Stopped(1, 2)];
    let lasers = vec![laser(1, 100, 100)];
    let meteors = vec![meteor(2, 1)];
    let out = resolve_collisions(&events, &lasers, &meteors, true);
    assert!(out.fragments.is_empty());
    assert!(out.despawned.is_empty());
}
