use asteroids_core::boundary::{
    apply_boundary, correction_screen_overflow, wrap_coordinate, Movable, WinSize, MARGIN,
};
use asteroids_core::geometry::Vec3i;

#[test]
fn past_the_exit_plane_reenters_at_the_opposite_half_extent() {
    // half extent 500_000, margin 100_000: one step past +600_000 lands
    // exactly on -500_000.
    assert_eq!(wrap_coordinate(600_001, 500_000, 100_000), -500_000);
    assert_eq!(wrap_coordinate(7_000_000, 500_000, 100_000), -500_000);
}

#[test]
fn symmetric_on_the_negative_side() {
    assert_eq!(wrap_coordinate(-600_001, 500_000, 100_000), 500_000);
}

#[test]
fn inside_the_exit_planes_nothing_moves() {
    assert_eq!(wrap_coordinate(600_000, 500_000, 100_000), 600_000);
    assert_eq!(wrap_coordinate(-600_000, 500_000, 100_000), -600_000);
    assert_eq!(wrap_coordinate(123, 500_000, 100_000), 123);
    assert_eq!(wrap_coordinate(0, 500_000, 100_000), 0);
}

#[test]
fn auto_despawn_removes_instead_of_wrapping() {
    let win = WinSize { width: 1_000_000, height: 800_000 };
    let out = Vec3i { x: 500_000 + MARGIN + 1, y: 0, z: 0 };
    let r = apply_boundary(out, &win, &Movable { auto_despawn: true });
    assert!(r.is_none());
    let r = apply_boundary(out, &win, &Movable { auto_despawn: false });
    assert_eq!(r, Some(Vec3i { x: -500_000, y: 0, z: 0 }));
}

#[test]
fn inside_positions_keep_both_policies_alive() {
    let win = WinSize { width: 1_000_000, height: 800_000 };
    let p = Vec3i { x: 250_000, y: -100_000, z: 7 };
    assert_eq!(apply_boundary(p, &win, &Movable { auto_despawn: true }), Some(p));
    assert_eq!(apply_boundary(p, &win, &Movable { auto_despawn: false }), Some(p));
}

#[test]
fn overflow_pass_corrects_every_entity() {
    let win = WinSize { width: 1_000_000, height: 800_000 };
    let mut positions = vec![
        Vec3i { x: 700_000, y: 0, z: 1 },
        Vec3i { x: 0, y: -500_001, z: 2 },
        Vec3i { x: 10, y: 20, z: 3 },
    ];
    correction_screen_overflow(&mut positions, &win);
    assert_eq!(positions[0], Vec3i { x: -500_000, y: 0, z: 1 });
    assert_eq!(positions[1], Vec3i { x: 0, y: 400_000, z: 2 });
    assert_eq!(positions[2], Vec3i { x: 10, y: 20, z: 3 });
}
