//! Per-entity thrust, velocity and heading state.
//!
//! Thrust ramps up by a fixed increment per tick until it hits its cap,
//! velocity components are clamped to a per-axis box (so the diagonal may
//! exceed the nominal cap — a deliberate rule of this game, not an
//! oversight), and headings live in `[0, 360)` degrees, held here as
//! milli-degrees with a single wrap correction per rotation step.

use vstd::prelude::*;

use crate::num::{clamp, div_trunc, div_trunc_i64};

verus! {

/// Top thrust level and per-axis velocity bound, in milli steps (0.5 units).
pub const MAX_ACCELERATION: i64 = 500;

/// Thrust gained by one `accelerate` call, in milli steps (0.001 units).
pub const ACCELERATION_STEP: i64 = 1;

/// A full turn in milli-degrees.
pub const FULL_TURN: i64 = 360_000;

/// The fixed time step times the base speed, as the fraction 25/3: a
/// rotation or translation input is scaled by it once per tick.
pub const SPEED_FACTOR_NUM: i64 = 25;

/// Denominator of the per-tick speed factor.
pub const SPEED_FACTOR_DEN: i64 = 3;

/// What one `accelerate` call does to the thrust level.
pub open spec fn accel_step(a: int) -> int {
    if a < MAX_ACCELERATION {
        a + ACCELERATION_STEP
    } else {
        a
    }
}

/// The thrust level after `n` consecutive `accelerate` calls from `a`.
pub open spec fn accel_after(n: nat, a: int) -> int
    decreases n,
{
    if n == 0 {
        a
    } else {
        accel_step(accel_after((n - 1) as nat, a))
    }
}

/// A velocity component forced into the per-axis box.
pub open spec fn clamp_axis(v: int) -> int {
    clamp(v, -MAX_ACCELERATION as int, MAX_ACCELERATION as int)
}

/// One wrap correction on a heading in milli-degrees: a negative heading
/// comes back from the far end, one past a full turn loses one turn.
pub open spec fn wrap_heading(h: int) -> int {
    if h < 0 {
        FULL_TURN + h
    } else if h >= FULL_TURN {
        h - FULL_TURN
    } else {
        h
    }
}

/// The per-tick heading change that a rotation input causes, in
/// milli-degrees: the input scaled by the time step and the base speed.
pub open spec fn rotation_delta(input: int) -> int {
    div_trunc(input * SPEED_FACTOR_NUM, SPEED_FACTOR_DEN as int)
}

/// Thrust level plus the velocity it has produced so far, one entity each.
pub struct Acceleration {
    /// Current thrust level in milli steps, within `[0, MAX_ACCELERATION]`.
    pub acceleration: i64,
    /// Velocity along the screen's x axis, in milli steps per tick.
    pub x: i64,
    /// Velocity along the screen's y axis, in milli steps per tick.
    pub y: i64,
}

impl Acceleration {
    /// The component's invariant: thrust within its ramp, each velocity
    /// axis within the per-axis box.
    pub open spec fn wf(&self) -> bool {
        &&& 0 <= self.acceleration <= MAX_ACCELERATION
        &&& -MAX_ACCELERATION <= self.x <= MAX_ACCELERATION
        &&& -MAX_ACCELERATION <= self.y <= MAX_ACCELERATION
    }

    /// Raise the thrust level one step, saturating at the cap.
    pub fn accelerate(&mut self)
        requires
            old(self).wf(),
        ensures
            final(self).wf(),
            final(self).acceleration == accel_step(old(self).acceleration as int),
            final(self).x == old(self).x,
            final(self).y == old(self).y,
    {
        if self.acceleration < MAX_ACCELERATION {
            self.acceleration = self.acceleration + ACCELERATION_STEP;
        }
    }

    /// Cut the thrust to zero at once; the already-built velocity stays.
    pub fn stop(&mut self)
        ensures
            final(self).acceleration == 0,
            final(self).x == old(self).x,
            final(self).y == old(self).y,
    {
        self.acceleration = 0;
    }

    /// Fold the current thrust into the velocity, along the direction whose
    /// sine and cosine are given in milli steps (screen convention: 0
    /// degrees is up, the x axis takes the negated sine). Each axis is then
    /// clamped independently.
    pub fn calculate_translation(&mut self, sin_milli: i64, cos_milli: i64)
        requires
            old(self).wf(),
            -1000 <= sin_milli <= 1000,
            -1000 <= cos_milli <= 1000,
        ensures
            final(self).wf(),
            final(self).acceleration == old(self).acceleration,
            final(self).x == clamp_axis(
                old(self).x + div_trunc(-sin_milli * old(self).acceleration, 1000),
            ),
            final(self).y == clamp_axis(
                old(self).y + div_trunc(cos_milli * old(self).acceleration, 1000),
            ),
    {
        proof {
            assert(-500_000 <= -sin_milli * self.acceleration <= 500_000
                && -500_000 <= cos_milli * self.acceleration <= 500_000) by (nonlinear_arith)
                requires
                    -1000 <= sin_milli <= 1000,
                    -1000 <= cos_milli <= 1000,
                    0 <= self.acceleration <= 500,
            ;
        }
        let dx: i64 = div_trunc_i64(-sin_milli * self.acceleration, 1000);
        let dy: i64 = div_trunc_i64(cos_milli * self.acceleration, 1000);
        proof {
            crate::num::lemma_div_trunc_bounds(-sin_milli * self.acceleration, 1000, 500_000);
            crate::num::lemma_div_trunc_bounds(cos_milli * self.acceleration, 1000, 500_000);
        }
        self.x = self.x + dx;
        self.y = self.y + dy;
        self.correct_max_acceleration();
    }

    /// Clamp both velocity axes back into the box.
    fn correct_max_acceleration(&mut self)
        requires
            -i64::MAX <= old(self).x,
            -i64::MAX <= old(self).y,
        ensures
            final(self).acceleration == old(self).acceleration,
            final(self).x == clamp_axis(old(self).x as int),
            final(self).y == clamp_axis(old(self).y as int),
    {
        if self.x > MAX_ACCELERATION {
            self.x = MAX_ACCELERATION;
        } else if self.x < -MAX_ACCELERATION {
            self.x = -MAX_ACCELERATION;
        }
        if self.y > MAX_ACCELERATION {
            self.y = MAX_ACCELERATION;
        } else if self.y < -MAX_ACCELERATION {
            self.y = -MAX_ACCELERATION;
        }
    }
}

impl Default for Acceleration {
    /// A body at rest: no thrust, no velocity.
    fn default() -> (r: Self)
        ensures
            r.acceleration == 0,
            r.x == 0,
            r.y == 0,
            r.wf(),
    {
        Acceleration { acceleration: 0, x: 0, y: 0 }
    }
}

/// The facing of an entity, in milli-degrees within `[0, FULL_TURN)`.
pub struct Direction {
    /// Current heading in milli-degrees.
    pub rotation_angle: i64,
}

impl Direction {
    /// The heading is inside one full turn.
    pub open spec fn wf(&self) -> bool {
        0 <= self.rotation_angle < FULL_TURN
    }

    /// Turn by a rotation input (milli units; positive turns left). One
    /// wrap correction is applied, so the scaled step must stay under a
    /// full turn — true of every per-tick rotation the game issues.
    pub fn rotate(&mut self, rotation_milli: i64)
        requires
            old(self).wf(),
            -43_000 <= rotation_milli <= 43_000,
        ensures
            final(self).wf(),
            final(self).rotation_angle == wrap_heading(
                old(self).rotation_angle + rotation_delta(rotation_milli as int),
            ),
    {
        proof {
            assert(-1_075_000 <= rotation_milli * SPEED_FACTOR_NUM <= 1_075_000) by (nonlinear_arith)
                requires
                    -43_000 <= rotation_milli <= 43_000,
                    SPEED_FACTOR_NUM == 25,
            ;
        }
        let delta: i64 = div_trunc_i64(rotation_milli * SPEED_FACTOR_NUM, SPEED_FACTOR_DEN);
        proof {
            crate::num::lemma_div_trunc_bounds(rotation_milli * SPEED_FACTOR_NUM, 3, 1_075_000);
        }
        self.rotation_angle = self.rotation_angle + delta;
        self.correct_angle();
    }

    /// Apply the single wrap correction.
    fn correct_angle(&mut self)
        requires
            -FULL_TURN < old(self).rotation_angle < 2 * FULL_TURN,
        ensures
            final(self).rotation_angle == wrap_heading(old(self).rotation_angle as int),
            final(self).wf(),
    {
        if self.rotation_angle < 0 {
            self.rotation_angle = FULL_TURN + self.rotation_angle;
        } else if self.rotation_angle >= FULL_TURN {
            self.rotation_angle = self.rotation_angle - FULL_TURN;
        }
    }
}

impl Default for Direction {
    /// Facing straight up.
    fn default() -> (r: Self)
        ensures
            r.rotation_angle == 0,
            r.wf(),
    {
        Direction { rotation_angle: 0 }
    }
}

/// For any heading within one correction's reach, the wrap lands in
/// `[0, FULL_TURN)` and a second wrap changes nothing.
pub proof fn lemma_wrap_heading_idempotent(h: int)
    requires
        -FULL_TURN < h < 2 * FULL_TURN,
    ensures
        0 <= wrap_heading(h) < FULL_TURN,
        wrap_heading(wrap_heading(h)) == wrap_heading(h),
{
}

/// Repeated `accelerate` calls ramp the thrust up one step at a time until
/// it parks at exactly the cap: after `n` calls it is the smaller of
/// `a + n` and `MAX_ACCELERATION`. Monotonicity and the bound follow.
pub proof fn lemma_accelerate_ramp(n: nat, a: int)
    requires
        0 <= a <= MAX_ACCELERATION,
    ensures
        accel_after(n, a) == if a + n <= MAX_ACCELERATION {
            a + n
        } else {
            MAX_ACCELERATION as int
        },
        0 <= accel_after(n, a) <= MAX_ACCELERATION,
        n > 0 ==> accel_after(n, a) >= accel_after((n - 1) as nat, a),
    decreases n,
{
    if n > 0 {
        lemma_accelerate_ramp((n - 1) as nat, a);
    }
}

/// Clamping keeps every velocity component inside the per-axis box,
/// whatever came in; a value already inside is untouched. Each axis is
/// clamped on its own, so the diagonal speed may exceed the cap.
pub proof fn lemma_clamp_axis_box(v: int)
    ensures
        -MAX_ACCELERATION <= clamp_axis(v) <= MAX_ACCELERATION,
        -MAX_ACCELERATION <= v <= MAX_ACCELERATION ==> clamp_axis(v) == v,
{
}

} // verus!
