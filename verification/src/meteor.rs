//! Meteor definitions, root-body spawning and the fragmentation engine.
//!
//! A destroyed body below the deepest level splits into exactly two
//! children. Each child's raw direction is the parent's impact velocity
//! turned by a quarter turn — the second child by a quarter turn plus a
//! half, so the two leave in exactly opposite directions. Children start a
//! fixed small distance from the impact point along their direction, move
//! at half the raw direction's pace, weigh half the parent and sit one
//! level deeper. A body already at the deepest level just disappears.

use vstd::prelude::*;

use crate::boundary::MAX_EXTENT;
use crate::boundary::WinSize;
use crate::geometry::Vec2i;
use crate::geometry::Vec3i;
use crate::num::div_trunc;
use crate::num::div_trunc_i64;
use crate::num::isqrt;
use crate::num::sqrt_floor;
use crate::rng::random_in_range;

verus! {

/// The deepest fragmentation level: a body there produces no children.
pub const MAX_METEOR_LEVEL: u8 = 3;

/// How many children a fragmenting body produces.
pub const CHILDREN_METEOR_COUNT: usize = 2;

/// How far from the impact point a child starts, in milli steps (10
/// units).
pub const FRAGMENT_OFFSET: i64 = 10_000;

/// The largest speed component the rules accept, in milli steps.
pub const MAX_SPEED: i64 = 1_000_000_000;

/// The heaviest body the rules accept, in milli steps.
pub const MAX_WEIGHT: i64 = 1_000_000_000_000;

/// Half a turn in milli-radians: the spin samples draw from `[0, π)`.
pub const PI_MILLI: i64 = 3141;

/// The sprite depth at which meteors are drawn, in milli steps.
pub const METEOR_DEPTH: i64 = 10_000;

/// A body definition read from a wave's data: what to spawn, how fast it
/// may start and how deep in the fragmentation it begins.
#[derive(Clone, Copy, PartialEq, Eq, Structural, Debug)]
pub struct MeteorDefinition {
    /// Mass handed to the physics collaborator, in milli steps.
    pub weight: i64,
    /// Smallest initial speed component, in milli steps.
    pub speed_min: i64,
    /// Largest initial speed component, in milli steps.
    pub speed_max: i64,
    /// Sprite family.
    pub kind: u8,
    /// Starting fragmentation level.
    pub level: u8,
}

impl MeteorDefinition {
    /// A definition the spawn rules accept.
    pub open spec fn wf(&self) -> bool {
        &&& 0 <= self.weight <= MAX_WEIGHT
        &&& 0 <= self.speed_min <= self.speed_max <= MAX_SPEED
        &&& 1 <= self.level <= MAX_METEOR_LEVEL
    }
}

/// Everything needed to put one meteor into the world.
#[derive(Clone, Copy, PartialEq, Eq, Structural, Debug)]
pub struct MeteorMapper {
    pub init_position: Vec3i,
    pub weight: i64,
    pub linvel: Vec2i,
    /// Spin, in milli-radians per second.
    pub angvel: i64,
    /// Bounciness handed to the physics collaborator, in milli steps.
    pub restitution: i64,
    pub kind: u8,
    pub level: u8,
}

/// A body destroyed by a projectile, as the collision resolver records it
/// for the fragmentation pass.
#[derive(Clone, Copy, PartialEq, Eq, Structural, Debug)]
pub struct DestroyedMeteor {
    pub weight: i64,
    pub kind: u8,
    /// The level the body had when it was destroyed.
    pub level: u8,
    /// The body's post-impact velocity, already mirrored toward the
    /// projectile's approach.
    pub velocity: Vec2i,
    /// Where the impact happened.
    pub position: Vec3i,
}

impl DestroyedMeteor {
    /// A record the fragmentation arithmetic accepts without overflow.
    pub open spec fn wf(&self) -> bool {
        &&& 0 <= self.weight <= MAX_WEIGHT
        &&& -MAX_SPEED <= self.velocity.x <= MAX_SPEED
        &&& -MAX_SPEED <= self.velocity.y <= MAX_SPEED
        &&& -MAX_EXTENT <= self.position.x <= MAX_EXTENT
        &&& -MAX_EXTENT <= self.position.y <= MAX_EXTENT
    }
}

/// The x component of child `i`'s raw direction: the parent velocity
/// turned by a quarter turn (`i == 0`) or three quarters (`i == 1`).
pub open spec fn child_dir_x(v: Vec2i, i: int) -> int {
    if i == 0 {
        -(v.y as int)
    } else {
        v.y as int
    }
}

/// The y component of child `i`'s raw direction.
pub open spec fn child_dir_y(v: Vec2i, i: int) -> int {
    if i == 0 {
        v.x as int
    } else {
        -(v.x as int)
    }
}

/// The length of a direction vector, rounded down.
pub open spec fn dir_norm(dx: int, dy: int) -> int {
    sqrt_floor((dx * dx + dy * dy) as nat) as int
}

/// One axis of the fixed separation offset: the direction normalised and
/// scaled to `FRAGMENT_OFFSET`, or nothing when there is no direction.
pub open spec fn offset_axis(d: int, dx: int, dy: int) -> int {
    if dx == 0 && dy == 0 {
        0
    } else {
        div_trunc(d * FRAGMENT_OFFSET, dir_norm(dx, dy))
    }
}

/// Where child `i` of a destroyed body starts.
pub open spec fn child_position(m: DestroyedMeteor, i: int) -> Vec3i {
    let dx = child_dir_x(m.velocity, i);
    let dy = child_dir_y(m.velocity, i);
    Vec3i {
        x: (m.position.x + offset_axis(dx, dx, dy)) as i64,
        y: (m.position.y + offset_axis(dy, dx, dy)) as i64,
        z: m.position.z,
    }
}

/// How child `i` of a destroyed body moves: the raw direction damped to
/// half pace.
pub open spec fn child_velocity(m: DestroyedMeteor, i: int) -> Vec2i {
    Vec2i {
        x: div_trunc(child_dir_x(m.velocity, i), 2) as i64,
        y: div_trunc(child_dir_y(m.velocity, i), 2) as i64,
    }
}

/// Everything `fragment` pins down about child `i` — all of it except the
/// spin, which is drawn fresh for each child.
pub open spec fn child_matches(c: MeteorMapper, m: DestroyedMeteor, i: int) -> bool {
    &&& c.init_position == child_position(m, i)
    &&& c.linvel == child_velocity(m, i)
    &&& c.weight == div_trunc(m.weight as int, 2)
    &&& c.kind == m.kind
    &&& c.level == m.level + 1
    &&& 0 <= c.angvel <= PI_MILLI
    &&& c.restitution == 1000
}

/// Build one child from its raw direction.
fn make_child(m: &DestroyedMeteor, dx: i64, dy: i64, i: Ghost<int>) -> (c: MeteorMapper)
    requires
        m.wf(),
        m.level < MAX_METEOR_LEVEL,
        dx == child_dir_x(m.velocity, i@),
        dy == child_dir_y(m.velocity, i@),
    ensures
        child_matches(c, *m, i@),
{
    proof {
        assert(0 <= dx * dx <= 1_000_000_000_000_000_000 && 0 <= dy * dy
            <= 1_000_000_000_000_000_000) by (nonlinear_arith)
            requires
                -1_000_000_000 <= dx <= 1_000_000_000,
                -1_000_000_000 <= dy <= 1_000_000_000,
        ;
    }
    let sq: i64 = dx * dx + dy * dy;
    let norm_u: u64 = isqrt(sq as u64);
    proof {
        crate::num::lemma_sqrt_floor_bounds(sq as nat);
        assert(sqrt_floor(sq as nat) <= 2_000_000_000) by (nonlinear_arith)
            requires
                sqrt_floor(sq as nat) * sqrt_floor(sq as nat) <= sq as nat,
                sq as nat <= 2_000_000_000_000_000_000,
        ;
        assert(dx == 0 && dy == 0 ==> dx * dx + dy * dy == 0) by (nonlinear_arith);
    }
    let norm: i64 = norm_u as i64;
    let (ox, oy): (i64, i64) = if norm == 0 {
        proof {
            assert(dx * dx + dy * dy == 0) by (nonlinear_arith)
                requires
                    (sq as nat) < (sqrt_floor(sq as nat) + 1) * (sqrt_floor(sq as nat) + 1),
                    sqrt_floor(sq as nat) == 0,
                    sq == dx * dx + dy * dy,
                    0 <= sq,
            ;
            assert(dx == 0 && dy == 0) by (nonlinear_arith)
                requires
                    dx * dx + dy * dy == 0,
            ;
        }
        (0, 0)
    } else {
        proof {
            assert(-10_000_000_000_000 <= dx * 10_000 <= 10_000_000_000_000
                && -10_000_000_000_000 <= dy * 10_000 <= 10_000_000_000_000) by (nonlinear_arith)
                requires
                    -1_000_000_000 <= dx <= 1_000_000_000,
                    -1_000_000_000 <= dy <= 1_000_000_000,
            ;
            crate::num::lemma_div_trunc_bounds(dx * 10_000, norm as int, 10_000_000_000_000);
            crate::num::lemma_div_trunc_bounds(dy * 10_000, norm as int, 10_000_000_000_000);
        }
        (div_trunc_i64(dx * FRAGMENT_OFFSET, norm), div_trunc_i64(dy * FRAGMENT_OFFSET, norm))
    };
    let angvel = random_in_range(0, PI_MILLI);
    MeteorMapper {
        init_position: Vec3i { x: m.position.x + ox, y: m.position.y + oy, z: m.position.z },
        weight: div_trunc_i64(m.weight, 2),
        linvel: Vec2i { x: div_trunc_i64(dx, 2), y: div_trunc_i64(dy, 2) },
        angvel,
        restitution: 1000,
        kind: m.kind,
        level: m.level + 1,
    }
}

/// Split a destroyed body into its children: exactly two below the
/// deepest level, none at it.
pub fn fragment(m: &DestroyedMeteor) -> (r: Vec<MeteorMapper>)
    requires
        m.wf(),
    ensures
        m.level >= MAX_METEOR_LEVEL ==> r@.len() == 0,
        m.level < MAX_METEOR_LEVEL ==> r@.len() == CHILDREN_METEOR_COUNT && child_matches(
            r@[0],
            *m,
            0,
        ) && child_matches(r@[1], *m, 1),
{
    let mut children: Vec<MeteorMapper> = Vec::new();
    if m.level >= MAX_METEOR_LEVEL {
        return children;
    }
    let first = make_child(m, -m.velocity.y, m.velocity.x, Ghost(0));
    children.push(first);
    let second = make_child(m, m.velocity.y, -m.velocity.x, Ghost(1));
    children.push(second);
    children
}

/// The two children separate in exactly opposite directions: the second
/// child's offset from the impact point and its velocity are the exact
/// negations of the first's — two directions a half turn apart.
pub proof fn lemma_fragment_children_opposite(m: DestroyedMeteor)
    requires
        m.wf(),
    ensures
        child_position(m, 1).x - m.position.x == -(child_position(m, 0).x - m.position.x),
        child_position(m, 1).y - m.position.y == -(child_position(m, 0).y - m.position.y),
        child_velocity(m, 1).x == -child_velocity(m, 0).x,
        child_velocity(m, 1).y == -child_velocity(m, 0).y,
{
    let dx = child_dir_x(m.velocity, 0);
    let dy = child_dir_y(m.velocity, 0);
    assert(child_dir_x(m.velocity, 1) == -dx && child_dir_y(m.velocity, 1) == -dy);
    assert((-dx) * (-dx) + (-dy) * (-dy) == dx * dx + dy * dy) by (nonlinear_arith);
    assert(dir_norm(-dx, -dy) == dir_norm(dx, dy));
    crate::num::lemma_div_trunc_neg(dx, 2);
    crate::num::lemma_div_trunc_neg(dy, 2);
    let sq = dx * dx + dy * dy;
    assert(0 <= dx * dx <= 1_000_000_000_000_000_000 && 0 <= dy * dy <= 1_000_000_000_000_000_000)
        by (nonlinear_arith)
        requires
            -1_000_000_000 <= dx <= 1_000_000_000,
            -1_000_000_000 <= dy <= 1_000_000_000,
    ;
    crate::num::lemma_sqrt_floor_bounds(sq as nat);
    let n = dir_norm(dx, dy);
    if dx == 0 && dy == 0 {
        assert(offset_axis(-dx, -dx, -dy) == 0 && offset_axis(dx, dx, dy) == 0);
    } else {
        assert(sq != 0) by (nonlinear_arith)
            requires
                0 <= dx * dx && 0 <= dy * dy,
                sq == dx * dx + dy * dy,
                !(dx == 0 && dy == 0),
        ;
        assert(n > 0) by (nonlinear_arith)
            requires
                (sq as nat) < (sqrt_floor(sq as nat) + 1) * (sqrt_floor(sq as nat) + 1),
                n == sqrt_floor(sq as nat),
                sq > 0,
        ;
        assert((-dx) * 10_000 == -(dx * 10_000) && (-dy) * 10_000 == -(dy * 10_000))
            by (nonlinear_arith);
        crate::num::lemma_div_trunc_neg(dx * 10_000, n);
        crate::num::lemma_div_trunc_neg(dy * 10_000, n);
        assert(-10_000_000_000_000 <= dx * 10_000 <= 10_000_000_000_000 && -10_000_000_000_000 <= dy
            * 10_000 <= 10_000_000_000_000) by (nonlinear_arith)
            requires
                -1_000_000_000 <= dx <= 1_000_000_000,
                -1_000_000_000 <= dy <= 1_000_000_000,
        ;
        crate::num::lemma_div_trunc_bounds(dx * 10_000, n, 10_000_000_000_000);
        crate::num::lemma_div_trunc_bounds(dy * 10_000, n, 10_000_000_000_000);
    }
}

/// A child starts at most the fixed distance from the impact point on
/// each axis: normalising the raw direction scales each component down
/// to at most `FRAGMENT_OFFSET`.
pub proof fn lemma_fragment_offset_small(m: DestroyedMeteor, i: int)
    requires
        m.wf(),
    ensures
        ({
            let dx = child_dir_x(m.velocity, i);
            let dy = child_dir_y(m.velocity, i);
            &&& -FRAGMENT_OFFSET <= offset_axis(dx, dx, dy) <= FRAGMENT_OFFSET
            &&& -FRAGMENT_OFFSET <= offset_axis(dy, dx, dy) <= FRAGMENT_OFFSET
        }),
{
    let dx = child_dir_x(m.velocity, i);
    let dy = child_dir_y(m.velocity, i);
    if dx == 0 && dy == 0 {
    } else {
        let sq = dx * dx + dy * dy;
        assert(0 <= dx * dx <= 1_000_000_000_000_000_000 && 0 <= dy * dy
            <= 1_000_000_000_000_000_000) by (nonlinear_arith)
            requires
                -1_000_000_000 <= dx <= 1_000_000_000,
                -1_000_000_000 <= dy <= 1_000_000_000,
        ;
        crate::num::lemma_sqrt_floor_bounds(sq as nat);
        let n = dir_norm(dx, dy);
        assert(n > 0 && -n <= dx <= n && -n <= dy <= n) by (nonlinear_arith)
            requires
                n == sqrt_floor(sq as nat),
                sqrt_floor(sq as nat) * sqrt_floor(sq as nat) <= sq as nat,
                (sq as nat) < (sqrt_floor(sq as nat) + 1) * (sqrt_floor(sq as nat) + 1),
                sq == dx * dx + dy * dy,
                0 <= dx * dx,
                0 <= dy * dy,
                !(dx == 0 && dy == 0),
                n >= 0,
        ;
        assert(-(n * FRAGMENT_OFFSET) <= dx * FRAGMENT_OFFSET <= n * FRAGMENT_OFFSET && -(n
            * FRAGMENT_OFFSET) <= dy * FRAGMENT_OFFSET <= n * FRAGMENT_OFFSET && n * FRAGMENT_OFFSET
            == FRAGMENT_OFFSET * n && n * FRAGMENT_OFFSET >= 0) by (nonlinear_arith)
            requires
                -n <= dx <= n,
                -n <= dy <= n,
                n > 0,
                FRAGMENT_OFFSET == 10_000,
        ;
        crate::num::lemma_div_trunc_bounds(dx * FRAGMENT_OFFSET, n, n * FRAGMENT_OFFSET);
        crate::num::lemma_div_trunc_bounds(dy * FRAGMENT_OFFSET, n, n * FRAGMENT_OFFSET);
        vstd::arithmetic::div_mod::lemma_div_by_multiple(FRAGMENT_OFFSET as int, n);
    }
}

/// One spawn tick: take the next pending definition off the wave's
/// queue, if any, and place it as a root body.
pub fn meteor_spawn_step(wave: &mut crate::wave::Wave, win: &WinSize) -> (r: Option<MeteorMapper>)
    requires
        win.wf(),
        forall|j: int| 0 <= j < old(wave).meteors@.len() ==> (#[trigger] old(wave).meteors@[j]).wf(),
    ensures
        final(wave).enemies == old(wave).enemies,
        old(wave).meteors@.len() == 0 ==> r is None && final(wave).meteors@ == old(wave).meteors@,
        old(wave).meteors@.len() > 0 ==> {
            let def = old(wave).meteors@.last();
            &&& final(wave).meteors@ == old(wave).meteors@.drop_last()
            &&& r matches Some(m)
            &&& (r matches Some(m) ==> m.weight == def.weight && m.kind == def.kind && m.level
                == def.level && (def.speed_min <= m.linvel.x <= def.speed_max || def.speed_min
                <= -m.linvel.x <= def.speed_max) && (def.speed_min <= m.linvel.y <= def.speed_max
                || def.speed_min <= -m.linvel.y <= def.speed_max))
        },
{
    match wave.take_next_meteor() {
        Some(def) => Some(get_meteor_definition_mapped(win, def)),
        None => None,
    }
}

/// Place a root body: position drawn across the field, each velocity
/// component's magnitude drawn from the definition's speed range with its
/// sign drawn separately, spin drawn from `[0, π)`.
pub fn get_meteor_definition_mapped(win: &WinSize, def: MeteorDefinition) -> (m: MeteorMapper)
    requires
        win.wf(),
        def.wf(),
    ensures
        m.weight == def.weight,
        m.kind == def.kind,
        m.level == def.level,
        -win.width <= m.init_position.x <= win.width,
        -win.height <= m.init_position.y <= win.height,
        m.init_position.z == METEOR_DEPTH,
        def.speed_min <= m.linvel.x <= def.speed_max || def.speed_min <= -m.linvel.x
            <= def.speed_max,
        def.speed_min <= m.linvel.y <= def.speed_max || def.speed_min <= -m.linvel.y
            <= def.speed_max,
        0 <= m.angvel <= PI_MILLI,
        m.restitution == 1000,
{
    let fx = random_in_range(-1000, 1000);
    let fy = random_in_range(-1000, 1000);
    proof {
        assert(-(MAX_EXTENT * 1000) <= win.width * fx <= MAX_EXTENT * 1000 && -(MAX_EXTENT * 1000)
            <= win.height * fy <= MAX_EXTENT * 1000 && MAX_EXTENT * 1000
            == 1_000_000_000_000_000) by (nonlinear_arith)
            requires
                0 < win.width <= MAX_EXTENT,
                0 < win.height <= MAX_EXTENT,
                -1000 <= fx <= 1000,
                -1000 <= fy <= 1000,
                MAX_EXTENT == 1_000_000_000_000,
        ;
        crate::num::lemma_div_trunc_scale_bound(win.width as int, fx as int, 1000);
        crate::num::lemma_div_trunc_scale_bound(win.height as int, fy as int, 1000);
    }
    let px = div_trunc_i64(win.width * fx, 1000);
    let py = div_trunc_i64(win.height * fy, 1000);
    let vx_mag = random_in_range(def.speed_min, def.speed_max);
    let vy_mag = random_in_range(def.speed_min, def.speed_max);
    let vx = if random_in_range(0, 1) == 1 {
        vx_mag
    } else {
        -vx_mag
    };
    let vy = if random_in_range(0, 1) == 1 {
        vy_mag
    } else {
        -vy_mag
    };
    let angvel = random_in_range(0, PI_MILLI);
    MeteorMapper {
        init_position: Vec3i { x: px, y: py, z: METEOR_DEPTH },
        weight: def.weight,
        linvel: Vec2i { x: vx, y: vy },
        angvel,
        restitution: 1000,
        kind: def.kind,
        level: def.level,
    }
}

} // verus!
