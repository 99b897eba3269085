//! One wave from dataset to fragments, end to end.

use asteroids_core::boundary::WinSize;
use asteroids_core::collision::{resolve_collisions, CollisionEvent, LaserState, MeteorBody};
use asteroids_core::geometry::Vec2i;
use asteroids_core::meteor::{fragment, meteor_spawn_step, MeteorMapper};
use asteroids_core::wave::{RawMeteorEntry, RawWaveRecord, Wave, WaveDirector};

fn one_meteor_wave() -> Vec<RawWaveRecord> {
    vec![RawWaveRecord {
        meteors: Some(vec![RawMeteorEntry {
            weight: Some(10_000),
            speed_min: Some(50_000),
            speed_max: Some(80_000),
            kind: Some(0),
            level: Some(1),
        }]),
        enemies: Some(0),
    }]
}

fn spawn_root(wave: &mut Wave) -> MeteorMapper {
    let win = WinSize { width: 900_000, height: 700_000 };
    meteor_spawn_step(wave, &win).expect("a pending body must spawn")
}

#[test]
fn a_wave_record_becomes_one_root_body_then_two_children() {
    // Load wave 1 from the dataset.
    let mut director = WaveDirector::new();
    assert_eq!(director.wave_count(), 1);
    let mut wave = director.activate(&one_meteor_wave()).expect("the record is well-formed");
    assert_eq!(director.wave_count(), 2);
    assert_eq!(wave.get_enemies(), 0);
    assert_eq!(wave.get_meteors().len(), 1);

    // The single pending body spawns as a root at level 1, weight 10,
    // each velocity component's magnitude drawn within [50, 80].
    let root = spawn_root(&mut wave);
    assert!(!wave.has_meteors());
    assert_eq!(root.level, 1);
    assert_eq!(root.weight, 10_000);
    assert!((50_000..=80_000).contains(&root.linvel.x.abs()));
    assert!((50_000..=80_000).contains(&root.linvel.y.abs()));

    // A projectile hits it.
    let events = vec![CollisionEvent::Started(10, 20)];
    let lasers = vec![LaserState { id: 10, velocity: Vec2i { x: 1000, y: 1000 } }];
    let meteors = vec![MeteorBody {
        id: 20,
        level: root.level,
        weight: root.weight,
        velocity: root.linvel,
        position: root.init_position,
    }];
    let out = resolve_collisions(&events, &lasers, &meteors, false);
    assert_eq!(out.despawned, vec![10, 20]);
    assert_eq!(out.fragments, vec![root.init_position]);
    assert_eq!(out.destroyed.len(), 1);

    // Fragmentation: exactly two children, level 2, weight 5 each, at
    // mirrored offsets from the impact point.
    let children = fragment(&out.destroyed[0]);
    assert_eq!(children.len(), 2);
    for c in &children {
        assert_eq!(c.level, 2);
        assert_eq!(c.weight, 5_000);
    }
    let p = out.destroyed[0].position;
    assert_eq!(
        children[1].init_position.x - p.x,
        -(children[0].init_position.x - p.x)
    );
    assert_eq!(
        children[1].init_position.y - p.y,
        -(children[0].init_position.y - p.y)
    );
    assert_ne!(children[0].init_position, children[1].init_position);
}

#[test]
fn a_degenerate_speed_range_pins_the_sampled_magnitude() {
    // With both bounds equal the drawn magnitude is forced, so a sampler
    // that ignored its range would be caught here.
    let mut wave = Wave::new(
        vec![asteroids_core::meteor::MeteorDefinition {
            weight: 1_000,
            speed_min: 60_000,
            speed_max: 60_000,
            kind: 2,
            level: 1,
        }],
        0,
    );
    let root = spawn_root(&mut wave);
    assert_eq!(root.linvel.x.abs(), 60_000);
    assert_eq!(root.linvel.y.abs(), 60_000);
    assert_eq!(root.kind, 2);
}
