//! Timer-driven lifecycles for transient entities.
//!
//! A one-shot timer fires its effect exactly once and is then spent; a
//! repeating timer fires every time its period elapses and rearms itself.
//! Projectiles, exhaust effects and debris live exactly as long as their
//! terminal timer; firing it is the only way such an entity leaves the
//! simulation.

use vstd::prelude::*;

use crate::rng::random_in_range;

verus! {

/// Whether a timer is spent after firing or rearms.
#[derive(Clone, Copy, PartialEq, Eq, Structural, Debug)]
pub enum TimerMode {
    Once,
    Repeating,
}

/// A countdown in milliseconds.
#[derive(Clone, Copy, PartialEq, Eq, Structural, Debug)]
pub struct GameTimer {
    /// Time left until the next firing.
    pub remaining: u64,
    /// The full duration; a repeating timer rearms to (a remainder of) it.
    pub period: u64,
    pub mode: TimerMode,
    /// Set once a one-shot timer has fired; never set on a repeating one.
    pub finished: bool,
}

/// Whether a timer goes off when `elapsed` more milliseconds pass.
pub open spec fn timer_fires(t: GameTimer, elapsed: int) -> bool {
    !t.finished && elapsed >= t.remaining
}

/// A one-shot timer after `elapsed` milliseconds have passed.
pub open spec fn once_after(t: GameTimer, elapsed: int) -> GameTimer {
    if t.finished {
        t
    } else if elapsed >= t.remaining {
        GameTimer { remaining: 0, finished: true, ..t }
    } else {
        GameTimer { remaining: (t.remaining - elapsed) as u64, ..t }
    }
}

impl GameTimer {
    /// The timer's invariant: the countdown never exceeds the period, a
    /// repeating timer has a positive period and is never spent, and a
    /// spent one-shot timer has nothing left to count.
    pub open spec fn wf(&self) -> bool {
        &&& self.remaining <= self.period
        &&& (self.mode is Repeating ==> self.period > 0 && self.remaining > 0 && !self.finished)
        &&& (self.finished ==> self.remaining == 0)
    }

    /// A fresh timer set to `duration_ms`.
    pub fn new(duration_ms: u64, mode: TimerMode) -> (r: GameTimer)
        requires
            mode is Repeating ==> duration_ms > 0,
        ensures
            r == (GameTimer { remaining: duration_ms, period: duration_ms, mode, finished: false }),
            r.wf(),
    {
        GameTimer { remaining: duration_ms, period: duration_ms, mode, finished: false }
    }

    /// Advance the countdown by `elapsed` milliseconds and say whether the
    /// timer went off. A spent one-shot timer never fires again; a
    /// repeating timer rearms with the overshoot carried over.
    pub fn tick(&mut self, elapsed: u64) -> (fired: bool)
        requires
            old(self).wf(),
        ensures
            final(self).wf(),
            fired == timer_fires(*old(self), elapsed as int),
            final(self).mode == old(self).mode,
            final(self).period == old(self).period,
            old(self).mode is Once ==> *final(self) == once_after(*old(self), elapsed as int),
            old(self).mode is Repeating && !fired ==> final(self).remaining == old(self).remaining
                - elapsed,
            old(self).mode is Repeating && fired ==> final(self).remaining == old(self).period - (
            (elapsed - old(self).remaining) % (old(self).period as int)),
            final(self).finished == (old(self).finished || (old(self).mode is Once && fired)),
    {
        if self.finished {
            return false;
        }
        if elapsed >= self.remaining {
            match self.mode {
                TimerMode::Once => {
                    self.remaining = 0;
                    self.finished = true;
                },
                TimerMode::Repeating => {
                    let overshoot: u64 = (elapsed - self.remaining) % self.period;
                    self.remaining = self.period - overshoot;
                },
            }
            true
        } else {
            self.remaining = self.remaining - elapsed;
            false
        }
    }
}

/// A spent timer can never fire: together with `tick`'s contract this
/// makes a one-shot effect fire exactly one time.
pub proof fn lemma_spent_timer_never_fires(t: GameTimer, elapsed: int)
    requires
        t.finished,
    ensures
        !timer_fires(t, elapsed),
{
}

/// The despawn countdown of a projectile.
#[derive(Clone, Copy, PartialEq, Eq, Structural, Debug)]
pub struct LaserTimer(pub GameTimer);

/// How long a fired projectile lives, in milliseconds.
pub const LASER_LIFETIME_MS: u64 = 1000;

impl Default for LaserTimer {
    /// A projectile exists for one second, once.
    fn default() -> (r: Self)
        ensures
            r.0 == (GameTimer {
                remaining: LASER_LIFETIME_MS,
                period: LASER_LIFETIME_MS,
                mode: TimerMode::Once,
                finished: false,
            }),
            r.0.wf(),
    {
        LaserTimer(GameTimer::new(LASER_LIFETIME_MS, TimerMode::Once))
    }
}

/// The frame-step countdown of a destruction effect.
#[derive(Clone, Copy, PartialEq, Eq, Structural, Debug)]
pub struct ExplosionTimer(pub GameTimer);

/// How often a destruction effect advances a frame, in milliseconds.
pub const EXPLOSION_STEP_MS: u64 = 50;

impl Default for ExplosionTimer {
    /// A destruction effect steps every 50 milliseconds until despawned.
    fn default() -> (r: Self)
        ensures
            r.0 == (GameTimer {
                remaining: EXPLOSION_STEP_MS,
                period: EXPLOSION_STEP_MS,
                mode: TimerMode::Repeating,
                finished: false,
            }),
            r.0.wf(),
    {
        ExplosionTimer(GameTimer::new(EXPLOSION_STEP_MS, TimerMode::Repeating))
    }
}

/// The finite existence of any transient entity.
#[derive(Clone, Copy, PartialEq, Eq, Structural, Debug)]
pub struct LifeTime(pub GameTimer);

/// The colour phases a piece of exhaust debris goes through.
#[derive(Clone, Copy, PartialEq, Eq, Structural, Debug)]
pub enum DragPhase {
    First,
    Second,
}

/// Three staged one-shot timers: the first two drive the debris colour
/// phases, the third sets the debris lifetime.
#[derive(Clone, Copy, PartialEq, Eq, Structural, Debug)]
pub struct RocketDragTimer(pub GameTimer, pub GameTimer, pub GameTimer);

impl RocketDragTimer {
    /// All three stages are one-shot and sound.
    pub open spec fn wf(&self) -> bool {
        &&& self.0.wf() && self.0.mode is Once
        &&& self.1.wf() && self.1.mode is Once
        &&& self.2.wf() && self.2.mode is Once
    }

    /// Build the three stages from a base factor in milliseconds, widened
    /// by a random jitter of up to a second: the second stage takes half
    /// the factor longer than the first, the third a quarter longer again.
    pub fn new(factor_ms: u64) -> (r: RocketDragTimer)
        requires
            factor_ms <= 1_000_000_000,
        ensures
            r.wf(),
            factor_ms <= r.0.period <= factor_ms + 999,
            r.1.period == r.0.period + r.0.period / 2,
            r.2.period == r.1.period + r.0.period / 4,
            r.0.remaining == r.0.period && !r.0.finished,
            r.1.remaining == r.1.period && !r.1.finished,
            r.2.remaining == r.2.period && !r.2.finished,
    {
        let jitter: i64 = random_in_range(0, 999);
        let factor: u64 = factor_ms + (jitter as u64);
        let duration_1: u64 = factor;
        let duration_2: u64 = duration_1 + factor / 2;
        let duration_3: u64 = duration_2 + factor / 4;
        RocketDragTimer(
            GameTimer::new(duration_1, TimerMode::Once),
            GameTimer::new(duration_2, TimerMode::Once),
            GameTimer::new(duration_3, TimerMode::Once),
        )
    }

    /// Advance the colour staging: the first stage that goes off wins and
    /// short-circuits the later one, so the two effects stay mutually
    /// exclusive; the third timer is left to the lifetime pass.
    pub fn advance(&mut self, elapsed: u64) -> (phase: Option<DragPhase>)
        requires
            old(self).wf(),
        ensures
            final(self).wf(),
            phase == Some(DragPhase::First) <==> timer_fires(old(self).0, elapsed as int),
            phase == Some(DragPhase::Second) <==> !timer_fires(old(self).0, elapsed as int)
                && timer_fires(old(self).1, elapsed as int),
            final(self).0 == once_after(old(self).0, elapsed as int),
            final(self).1 == if timer_fires(old(self).0, elapsed as int) {
                old(self).1
            } else {
                once_after(old(self).1, elapsed as int)
            },
            final(self).2 == old(self).2,
    {
        if self.0.tick(elapsed) {
            Some(DragPhase::First)
        } else if self.1.tick(elapsed) {
            Some(DragPhase::Second)
        } else {
            None
        }
    }
}

/// The ids of the entries whose lifetime goes off, kept in list order.
pub open spec fn expired_ids_upto(s: Seq<(u64, LifeTime)>, elapsed: int, i: int) -> Seq<u64>
    decreases i,
{
    if i <= 0 {
        Seq::empty()
    } else {
        let prev = expired_ids_upto(s, elapsed, i - 1);
        if timer_fires(s[i - 1].1.0, elapsed) {
            prev.push(s[i - 1].0)
        } else {
            prev
        }
    }
}

/// The ids of all entries whose lifetime goes off.
pub open spec fn expired_ids(s: Seq<(u64, LifeTime)>, elapsed: int) -> Seq<u64> {
    expired_ids_upto(s, elapsed, s.len() as int)
}

/// The per-tick lifetime pass: advance every entity's existence timer and
/// return, in order, the ids whose time is up. Despawning those ids is the
/// caller's half of the bargain — this is the only removal path for
/// transient entities.
pub fn check_life_times(items: &mut Vec<(u64, LifeTime)>, elapsed: u64) -> (expired: Vec<u64>)
    requires
        forall|j: int|
            0 <= j < old(items)@.len() ==> (#[trigger] old(items)@[j].1.0).wf() && old(
                items,
            )@[j].1.0.mode is Once,
    ensures
        final(items)@.len() == old(items)@.len(),
        forall|j: int|
            0 <= j < old(items)@.len() ==> #[trigger] final(items)@[j] == (
            old(items)@[j].0,
            LifeTime(once_after(old(items)@[j].1.0, elapsed as int)),
            ),
        expired@ == expired_ids(old(items)@, elapsed as int),
{
    let mut expired: Vec<u64> = Vec::new();
    let n = items.len();
    let mut i: usize = 0;
    while i < n
        invariant
            i <= n,
            items@.len() == n,
            old(items)@.len() == n,
            forall|j: int|
                0 <= j < n ==> (#[trigger] old(items)@[j].1.0).wf() && old(
                    items,
                )@[j].1.0.mode is Once,
            forall|j: int|
                0 <= j < i ==> #[trigger] items@[j] == (
                old(items)@[j].0,
                LifeTime(once_after(old(items)@[j].1.0, elapsed as int)),
                ),
            forall|j: int| i <= j < n ==> #[trigger] items@[j] == old(items)@[j],
            expired@ == expired_ids_upto(old(items)@, elapsed as int, i as int),
        decreases n - i,
    {
        let (id, mut life) = items[i];
        let fired = life.0.tick(elapsed);
        items.set(i, (id, life));
        if fired {
            expired.push(id);
        }
        i = i + 1;
    }
    expired
}

} // verus!
