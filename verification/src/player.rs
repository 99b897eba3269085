//! The per-tick decisions driven by the player's input command.
//!
//! Input arrives once per tick as four booleans. Turning takes priority
//! over nothing else but cuts thrust; thrust ramps the acceleration and
//! folds it into the velocity along the current heading; firing is gated
//! by a cooldown. The trigonometry of the heading is the shell's business
//! — these functions take the heading's sine and cosine as fixed-point
//! values and are exact from there on.

use vstd::prelude::*;

use crate::geometry::Vec2i;
use crate::kinematics::Acceleration;
use crate::kinematics::Direction;
use crate::kinematics::accel_step;
use crate::kinematics::clamp_axis;
use crate::kinematics::rotation_delta;
use crate::kinematics::wrap_heading;
use crate::kinematics::SPEED_FACTOR_DEN;
use crate::kinematics::SPEED_FACTOR_NUM;
use crate::num::div_trunc;
use crate::num::div_trunc_i64;
use crate::timers::RocketDragTimer;
use crate::rng::random_in_range;

verus! {

/// One tick's sampled input.
#[derive(Clone, Copy, PartialEq, Eq, Structural, Debug)]
pub struct InputCommand {
    pub turn_left: bool,
    pub turn_right: bool,
    pub thrust: bool,
    pub fire: bool,
}

/// The rotation input a held turn key produces, in milli units (0.5).
pub const ROTATION_INPUT: i64 = 500;

/// How long after a shot the trigger stays cold, in milliseconds.
pub const LASER_COOLDOWN_MS: u64 = 250;

/// The boost a fired projectile gets along the heading, in milli steps
/// (500 units).
pub const LASER_BOOST: i64 = 500_000;

/// The base factor of the exhaust debris timers, in milliseconds (0.25).
pub const DRAG_BASE_FACTOR_MS: u64 = 250;

/// How long the thrust flame lives, in milliseconds.
pub const ROCKET_FIRE_LIFETIME_MS: u64 = 50;

/// The widest random tilt of a debris piece, in whole degrees.
pub const DRAG_MAX_TILT_DEG: i64 = 25;

/// How long ago the last shot left the ship. The shell keeps it current;
/// the firing gate compares it against the cooldown.
#[derive(Clone, Copy, PartialEq, Eq, Structural, Debug)]
pub struct TimeSinceLastShot {
    pub elapsed_ms: u64,
}

/// Turn the ship by the held key and cut the thrust while turning; with
/// no turn key held nothing changes. A held left key wins over a held
/// right key, as the input system has always read them.
pub fn player_rotation_step(acc: &mut Acceleration, dir: &mut Direction, cmd: &InputCommand)
    requires
        old(acc).wf(),
        old(dir).wf(),
    ensures
        final(acc).wf(),
        final(dir).wf(),
        cmd.turn_left ==> final(dir).rotation_angle == wrap_heading(
            old(dir).rotation_angle + rotation_delta(ROTATION_INPUT as int),
        ) && final(acc).acceleration == 0,
        !cmd.turn_left && cmd.turn_right ==> final(dir).rotation_angle == wrap_heading(
            old(dir).rotation_angle + rotation_delta(-ROTATION_INPUT as int),
        ) && final(acc).acceleration == 0,
        !cmd.turn_left && !cmd.turn_right ==> *final(dir) == *old(dir) && *final(acc) == *old(acc),
        final(acc).x == old(acc).x,
        final(acc).y == old(acc).y,
{
    if cmd.turn_left {
        dir.rotate(ROTATION_INPUT);
        acc.stop();
    } else if cmd.turn_right {
        dir.rotate(-ROTATION_INPUT);
        acc.stop();
    }
}

/// Ramp and apply the thrust while the thrust key is held, or cut it the
/// moment the key is released. `sin_milli` and `cos_milli` are the
/// heading's sine and cosine in milli steps.
pub fn player_acceleration_step(
    acc: &mut Acceleration,
    sin_milli: i64,
    cos_milli: i64,
    cmd: &InputCommand,
)
    requires
        old(acc).wf(),
        -1000 <= sin_milli <= 1000,
        -1000 <= cos_milli <= 1000,
    ensures
        final(acc).wf(),
        cmd.thrust ==> {
            let ramped = accel_step(old(acc).acceleration as int);
            &&& final(acc).acceleration == ramped
            &&& final(acc).x == clamp_axis(old(acc).x + div_trunc(-sin_milli * ramped, 1000))
            &&& final(acc).y == clamp_axis(old(acc).y + div_trunc(cos_milli * ramped, 1000))
        },
        !cmd.thrust ==> final(acc).acceleration == 0 && final(acc).x == old(acc).x && final(acc).y
            == old(acc).y,
{
    if cmd.thrust {
        acc.accelerate();
        acc.calculate_translation(sin_milli, cos_milli);
    } else {
        acc.stop();
    }
}

/// Where the ship's controller moves this tick: the accumulated velocity
/// scaled by the time step and base speed, added to the pending
/// translation.
pub fn move_player_translation(translation: Vec2i, acc: &Acceleration) -> (r: Vec2i)
    requires
        acc.wf(),
        -1_000_000_000_000 <= translation.x <= 1_000_000_000_000,
        -1_000_000_000_000 <= translation.y <= 1_000_000_000_000,
    ensures
        r.x == translation.x + div_trunc(acc.x * SPEED_FACTOR_NUM, SPEED_FACTOR_DEN as int),
        r.y == translation.y + div_trunc(acc.y * SPEED_FACTOR_NUM, SPEED_FACTOR_DEN as int),
{
    proof {
        assert(-12_500 <= acc.x * SPEED_FACTOR_NUM <= 12_500 && -12_500 <= acc.y * SPEED_FACTOR_NUM
            <= 12_500) by (nonlinear_arith)
            requires
                -500 <= acc.x <= 500,
                -500 <= acc.y <= 500,
                SPEED_FACTOR_NUM == 25,
        ;
        crate::num::lemma_div_trunc_bounds(acc.x * SPEED_FACTOR_NUM, 3, 12_500);
        crate::num::lemma_div_trunc_bounds(acc.y * SPEED_FACTOR_NUM, 3, 12_500);
    }
    let dx = div_trunc_i64(acc.x * SPEED_FACTOR_NUM, SPEED_FACTOR_DEN);
    let dy = div_trunc_i64(acc.y * SPEED_FACTOR_NUM, SPEED_FACTOR_DEN);
    Vec2i { x: translation.x + dx, y: translation.y + dy }
}

/// One axis of the launch boost: momentum carried into a projectile only
/// when the ship already moves the same way the projectile flies.
pub open spec fn boost_component(t: int, c: int) -> int {
    if (t < 0 && c < 0) || (t > 0 && c > 0) {
        t + div_trunc(c * SPEED_FACTOR_NUM, SPEED_FACTOR_DEN as int)
    } else {
        t
    }
}

/// Carry the ship's own velocity into a projectile's, axis by axis, but
/// only where the two already agree in direction.
pub fn calculate_velocity(translation: Vec2i, carry: Vec2i) -> (r: Vec2i)
    requires
        -1_000_000_000 <= translation.x <= 1_000_000_000,
        -1_000_000_000 <= translation.y <= 1_000_000_000,
        -1_000_000_000 <= carry.x <= 1_000_000_000,
        -1_000_000_000 <= carry.y <= 1_000_000_000,
    ensures
        r.x == boost_component(translation.x as int, carry.x as int),
        r.y == boost_component(translation.y as int, carry.y as int),
{
    proof {
        assert(-25_000_000_000 <= carry.x * SPEED_FACTOR_NUM <= 25_000_000_000 && -25_000_000_000
            <= carry.y * SPEED_FACTOR_NUM <= 25_000_000_000) by (nonlinear_arith)
            requires
                -1_000_000_000 <= carry.x <= 1_000_000_000,
                -1_000_000_000 <= carry.y <= 1_000_000_000,
                SPEED_FACTOR_NUM == 25,
        ;
        crate::num::lemma_div_trunc_bounds(carry.x * SPEED_FACTOR_NUM, 3, 25_000_000_000);
        crate::num::lemma_div_trunc_bounds(carry.y * SPEED_FACTOR_NUM, 3, 25_000_000_000);
    }
    let mut x = translation.x;
    let mut y = translation.y;
    if (x < 0 && carry.x < 0) || (x > 0 && carry.x > 0) {
        x = x + div_trunc_i64(carry.x * SPEED_FACTOR_NUM, SPEED_FACTOR_DEN);
    }
    if (y < 0 && carry.y < 0) || (y > 0 && carry.y > 0) {
        y = y + div_trunc_i64(carry.y * SPEED_FACTOR_NUM, SPEED_FACTOR_DEN);
    }
    Vec2i { x, y }
}

/// Whether the trigger is warm again: true exactly when at least the
/// cooldown has passed since the last shot.
pub fn can_fire(elapsed_since_last_shot_ms: u64) -> (r: bool)
    ensures
        r <==> elapsed_since_last_shot_ms >= LASER_COOLDOWN_MS,
{
    elapsed_since_last_shot_ms >= LASER_COOLDOWN_MS
}

/// The launch velocity of a projectile fired along the heading whose
/// sine and cosine are given: the boost rotated to the heading, with the
/// ship's agreeing momentum carried in.
pub open spec fn laser_velocity(sin_milli: int, cos_milli: int, carry: Vec2i) -> Vec2i {
    let tx = div_trunc(-sin_milli * LASER_BOOST, 1000);
    let ty = div_trunc(cos_milli * LASER_BOOST, 1000);
    Vec2i {
        x: boost_component(tx, carry.x as int) as i64,
        y: boost_component(ty, carry.y as int) as i64,
    }
}

/// Decide a shot: fired exactly when the key is pressed and the trigger
/// is warm — a ship that has never fired is always warm — and in that
/// case hand back the projectile's launch velocity.
pub fn player_shooting_step(
    cmd: &InputCommand,
    elapsed_since_last_shot_ms: Option<u64>,
    acc: &Acceleration,
    sin_milli: i64,
    cos_milli: i64,
) -> (r: Option<Vec2i>)
    requires
        acc.wf(),
        -1000 <= sin_milli <= 1000,
        -1000 <= cos_milli <= 1000,
    ensures
        r is Some <==> cmd.fire && (elapsed_since_last_shot_ms matches Some(e) ==> e
            >= LASER_COOLDOWN_MS),
        r matches Some(v) ==> v == laser_velocity(
            sin_milli as int,
            cos_milli as int,
            Vec2i { x: acc.x, y: acc.y },
        ),
{
    if !cmd.fire {
        return None;
    }
    match elapsed_since_last_shot_ms {
        Some(elapsed) => {
            if !can_fire(elapsed) {
                return None;
            }
        },
        None => {},
    }
    proof {
        assert(-500_000_000 <= -sin_milli * LASER_BOOST <= 500_000_000 && -500_000_000 <= cos_milli
            * LASER_BOOST <= 500_000_000) by (nonlinear_arith)
            requires
                -1000 <= sin_milli <= 1000,
                -1000 <= cos_milli <= 1000,
                LASER_BOOST == 500_000,
        ;
        crate::num::lemma_div_trunc_bounds(-sin_milli * LASER_BOOST, 1000, 500_000_000);
        crate::num::lemma_div_trunc_bounds(cos_milli * LASER_BOOST, 1000, 500_000_000);
    }
    let tx = div_trunc_i64(-sin_milli * LASER_BOOST, 1000);
    let ty = div_trunc_i64(cos_milli * LASER_BOOST, 1000);
    Some(calculate_velocity(Vec2i { x: tx, y: ty }, Vec2i { x: acc.x, y: acc.y }))
}

/// What to spawn for a drag piece: its staged timers, a random tilt off
/// the ship's heading, a random spin, and a lifetime equal to the last
/// stage.
pub struct DragSpawn {
    pub timers: RocketDragTimer,
    /// Tilt off the ship's reversed heading, in whole degrees.
    pub tilt_deg: i64,
    /// Spin, in milli-radians per second.
    pub angvel: i64,
    /// How long the piece lives, in milliseconds.
    pub lifetime_ms: u64,
}

/// One tick's propulsion effects.
pub struct PropulsionPlan {
    /// Whether a thrust flame appears this tick.
    pub spawn_fire: bool,
    /// How long the flame lives, in milliseconds.
    pub fire_lifetime_ms: u64,
    /// A debris piece, spawned on a one-in-four chance while thrusting.
    pub drag: Option<DragSpawn>,
}

/// Decide this tick's propulsion effects: nothing at all without thrust;
/// with it, always a short-lived flame, and sometimes a debris piece
/// whose colour staging and lifetime come from the staged timers.
pub fn propulsion_effect_step(acc: &Acceleration) -> (r: PropulsionPlan)
    ensures
        r.spawn_fire <==> acc.acceleration != 0,
        r.fire_lifetime_ms == ROCKET_FIRE_LIFETIME_MS,
        acc.acceleration == 0 ==> r.drag is None,
        r.drag matches Some(d) ==> {
            &&& d.timers.wf()
            &&& DRAG_BASE_FACTOR_MS <= d.timers.0.period <= DRAG_BASE_FACTOR_MS + 999
            &&& d.timers.1.period == d.timers.0.period + d.timers.0.period / 2
            &&& d.timers.2.period == d.timers.1.period + d.timers.0.period / 4
            &&& -DRAG_MAX_TILT_DEG <= d.tilt_deg <= DRAG_MAX_TILT_DEG
            &&& 0 <= d.angvel <= crate::meteor::PI_MILLI
            &&& d.lifetime_ms == d.timers.2.period
        },
{
    if acc.acceleration == 0 {
        return PropulsionPlan {
            spawn_fire: false,
            fire_lifetime_ms: ROCKET_FIRE_LIFETIME_MS,
            drag: None,
        };
    }
    let chance = random_in_range(0, 999);
    let drag = if chance >= 750 {
        let timers = RocketDragTimer::new(DRAG_BASE_FACTOR_MS);
        let lifetime_ms = timers.2.period;
        let tilt_deg = random_in_range(-DRAG_MAX_TILT_DEG, DRAG_MAX_TILT_DEG);
        let angvel = random_in_range(0, crate::meteor::PI_MILLI);
        Some(DragSpawn { timers, tilt_deg, angvel, lifetime_ms })
    } else {
        None
    };
    PropulsionPlan { spawn_fire: true, fire_lifetime_ms: ROCKET_FIRE_LIFETIME_MS, drag }
}

} // verus!
