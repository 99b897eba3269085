//! Per-tick collision resolution between projectiles and meteors.
//!
//! The physics collaborator may report one physical contact several times
//! in a tick, once from each side. A per-tick set of already-processed
//! entity ids makes resolution idempotent: an entity is destroyed at most
//! once per tick. A resolved pair despawns both entities, records the
//! impact point for a destruction effect, mirrors the body's velocity
//! toward the projectile's approach, and queues the body for
//! fragmentation if it is not yet at the deepest level. By default only
//! the first resolvable pair of a tick is processed; a toggle resolves
//! every distinct pair instead.

use vstd::prelude::*;

use crate::geometry::Vec2i;
use crate::geometry::Vec3i;
use crate::meteor::DestroyedMeteor;
use crate::meteor::MAX_METEOR_LEVEL;
use crate::meteor::MAX_SPEED;
use crate::meteor::MAX_WEIGHT;
use crate::boundary::MAX_EXTENT;

verus! {

/// A contact report from the physics collaborator, reduced to the two
/// entity ids.
#[derive(Clone, Copy, PartialEq, Eq, Structural, Debug)]
pub enum CollisionEvent {
    Started(u64, u64),
    Stopped(u64, u64),
}

/// What the resolver reads of a live projectile.
#[derive(Clone, Copy, PartialEq, Eq, Structural, Debug)]
pub struct LaserState {
    pub id: u64,
    pub velocity: Vec2i,
}

/// What the resolver reads of a live meteor.
#[derive(Clone, Copy, PartialEq, Eq, Structural, Debug)]
pub struct MeteorBody {
    pub id: u64,
    pub level: u8,
    pub weight: i64,
    pub velocity: Vec2i,
    pub position: Vec3i,
}

impl MeteorBody {
    /// Bounds under which the impact arithmetic is exact.
    pub open spec fn wf(&self) -> bool {
        &&& 0 <= self.weight <= MAX_WEIGHT
        &&& -MAX_SPEED <= self.velocity.x <= MAX_SPEED
        &&& -MAX_SPEED <= self.velocity.y <= MAX_SPEED
        &&& -MAX_EXTENT <= self.position.x <= MAX_EXTENT
        &&& -MAX_EXTENT <= self.position.y <= MAX_EXTENT
    }
}

/// The sign of a projectile's approach along one axis.
pub open spec fn approach_sign(v: int) -> int {
    if v > 0 {
        1
    } else {
        -1
    }
}

/// The projectile's approach direction, one sign per axis.
pub open spec fn laser_direction(v: Vec2i) -> Vec2i {
    Vec2i { x: approach_sign(v.x as int) as i64, y: approach_sign(v.y as int) as i64 }
}

/// One axis of the impact mirroring: a component moving away from the
/// projectile's approach is flipped toward it, one already moving with it
/// is kept.
pub open spec fn mirror_axis(m: int, l: int) -> int {
    if m > 0 {
        if l > 0 {
            m
        } else {
            -m
        }
    } else {
        if l > 0 {
            -m
        } else {
            m
        }
    }
}

/// The destroyed body's post-impact velocity.
pub open spec fn mirrored_velocity(m: Vec2i, l: Vec2i) -> Vec2i {
    Vec2i { x: mirror_axis(m.x as int, l.x as int) as i64, y: mirror_axis(m.y as int, l.y as int) as i64 }
}

/// Read a projectile's approach direction from its velocity.
pub fn laser_direction_of(v: &Vec2i) -> (r: Vec2i)
    ensures
        r == laser_direction(*v),
{
    let x: i64 = if v.x > 0 {
        1
    } else {
        -1
    };
    let y: i64 = if v.y > 0 {
        1
    } else {
        -1
    };
    Vec2i { x, y }
}

/// Mirror each axis of the body's velocity to match the sign of the
/// projectile's approach on that axis.
pub fn apply_laser_direction_on_meteor(velocity: &Vec2i, laser_dir: Vec2i) -> (r: Vec2i)
    requires
        -MAX_SPEED <= velocity.x <= MAX_SPEED,
        -MAX_SPEED <= velocity.y <= MAX_SPEED,
    ensures
        r == mirrored_velocity(*velocity, laser_dir),
{
    let x: i64 = if velocity.x > 0 {
        if laser_dir.x > 0 {
            velocity.x
        } else {
            -velocity.x
        }
    } else {
        if laser_dir.x > 0 {
            -velocity.x
        } else {
            velocity.x
        }
    };
    let y: i64 = if velocity.y > 0 {
        if laser_dir.y > 0 {
            velocity.y
        } else {
            -velocity.y
        }
    } else {
        if laser_dir.y > 0 {
            -velocity.y
        } else {
            velocity.y
        }
    };
    Vec2i { x, y }
}

/// Whether a vector of ids holds `id`.
fn contains_id(v: &Vec<u64>, id: u64) -> (r: bool)
    ensures
        r == v@.contains(id),
{
    let n = v.len();
    let mut i: usize = 0;
    while i < n
        invariant
            i <= n,
            n == v@.len(),
            forall|k: int| 0 <= k < i ==> v@[k] != id,
        decreases n - i,
    {
        if v[i] == id {
            return true;
        }
        i = i + 1;
    }
    false
}

/// Take one contact report against the per-tick processed set: a start
/// event whose entities are both new marks them processed and hands the
/// pair back; anything else is dropped.
pub fn get_entities_touched(event: &CollisionEvent, processed: &mut Vec<u64>) -> (r: Option<
    (u64, u64),
>)
    ensures
        match *event {
            CollisionEvent::Started(a, b) => {
                if !old(processed)@.contains(a) && !old(processed)@.contains(b) {
                    r == Some((a, b)) && final(processed)@ == old(processed)@.push(a).push(b)
                } else {
                    r is None && final(processed)@ == old(processed)@
                }
            },
            CollisionEvent::Stopped(_, _) => r is None && final(processed)@ == old(processed)@,
        },
{
    match *event {
        CollisionEvent::Started(a, b) => {
            if contains_id(processed, a) || contains_id(processed, b) {
                None
            } else {
                processed.push(a);
                processed.push(b);
                Some((a, b))
            }
        },
        CollisionEvent::Stopped(_, _) => None,
    }
}

/// Record one confirmed impact: always an effect at the impact point, and
/// a fragmentation source unless the body is already at the deepest level.
pub fn handle_entity_destruction(
    fragments: &mut Vec<Vec3i>,
    destroyed: &mut Vec<DestroyedMeteor>,
    level: u8,
    weight: i64,
    velocity: Vec2i,
    position: Vec3i,
)
    ensures
        final(fragments)@ == old(fragments)@.push(position),
        level < MAX_METEOR_LEVEL ==> final(destroyed)@ == old(destroyed)@.push(
            DestroyedMeteor { weight, kind: 0, level, velocity, position },
        ),
        level >= MAX_METEOR_LEVEL ==> final(destroyed)@ == old(destroyed)@,
{
    fragments.push(position);
    if level < MAX_METEOR_LEVEL {
        destroyed.push(DestroyedMeteor { weight, kind: 0, level, velocity, position });
    }
}

/// The resolver's state as it folds over one tick's events.
pub struct ResolveState {
    /// Entity ids already part of a processed pair this tick.
    pub processed: Seq<u64>,
    /// Impact points at which to spawn destruction effects.
    pub fragments: Seq<Vec3i>,
    /// Bodies queued for the fragmentation pass.
    pub destroyed: Seq<DestroyedMeteor>,
    /// Entities to remove from the simulation.
    pub despawned: Seq<u64>,
    /// Whether resolution has stopped for this tick.
    pub done: bool,
}

/// The resolver's state before any event of the tick.
pub open spec fn initial_resolve_state() -> ResolveState {
    ResolveState {
        processed: Seq::empty(),
        fragments: Seq::empty(),
        destroyed: Seq::empty(),
        despawned: Seq::empty(),
        done: false,
    }
}

/// The projectile participant of a pair: the last listed projectile whose
/// id is in the pair, among the first `i` listed.
pub open spec fn find_laser_upto(lasers: Seq<LaserState>, a: u64, b: u64, i: int) -> Option<
    LaserState,
>
    decreases i,
{
    if i <= 0 {
        None
    } else if lasers[i - 1].id == a || lasers[i - 1].id == b {
        Some(lasers[i - 1])
    } else {
        find_laser_upto(lasers, a, b, i - 1)
    }
}

/// The body participant of a pair: the first listed meteor at or after
/// position `i` whose id is in the pair.
pub open spec fn find_meteor_from(meteors: Seq<MeteorBody>, a: u64, b: u64, i: int) -> Option<
    MeteorBody,
>
    decreases meteors.len() - i,
{
    if i < 0 || i >= meteors.len() {
        None
    } else if meteors[i].id == a || meteors[i].id == b {
        Some(meteors[i])
    } else {
        find_meteor_from(meteors, a, b, i + 1)
    }
}

/// What one contact report does to the resolver's state.
pub open spec fn resolve_event(
    st: ResolveState,
    e: CollisionEvent,
    lasers: Seq<LaserState>,
    meteors: Seq<MeteorBody>,
    resolve_all: bool,
) -> ResolveState {
    if st.done {
        st
    } else {
        match e {
            CollisionEvent::Stopped(_, _) => st,
            CollisionEvent::Started(a, b) => {
                if st.processed.contains(a) || st.processed.contains(b) {
                    st
                } else {
                    let marked = st.processed.push(a).push(b);
                    match (
                        find_laser_upto(lasers, a, b, lasers.len() as int),
                        find_meteor_from(meteors, a, b, 0),
                    ) {
                        (Some(l), Some(m)) => {
                            let mv = mirrored_velocity(m.velocity, laser_direction(l.velocity));
                            ResolveState {
                                processed: marked,
                                fragments: st.fragments.push(m.position),
                                destroyed: if m.level < MAX_METEOR_LEVEL {
                                    st.destroyed.push(
                                        DestroyedMeteor {
                                            weight: m.weight,
                                            kind: 0,
                                            level: m.level,
                                            velocity: mv,
                                            position: m.position,
                                        },
                                    )
                                } else {
                                    st.destroyed
                                },
                                despawned: st.despawned.push(a).push(b),
                                done: !resolve_all,
                            }
                        },
                        _ => ResolveState {
                            processed: marked,
                            fragments: st.fragments,
                            destroyed: st.destroyed,
                            despawned: st.despawned,
                            done: st.done,
                        },
                    }
                }
            },
        }
    }
}

/// The resolver's state after the first `i` events of the tick.
pub open spec fn resolve_upto(
    events: Seq<CollisionEvent>,
    lasers: Seq<LaserState>,
    meteors: Seq<MeteorBody>,
    resolve_all: bool,
    i: int,
) -> ResolveState
    decreases i,
{
    if i <= 0 {
        initial_resolve_state()
    } else {
        resolve_event(
            resolve_upto(events, lasers, meteors, resolve_all, i - 1),
            events[i - 1],
            lasers,
            meteors,
            resolve_all,
        )
    }
}

/// Everything one tick's resolution produces.
pub struct ResolveOutcome {
    /// Impact points at which to spawn destruction effects.
    pub fragments: Vec<Vec3i>,
    /// Bodies queued for the fragmentation pass.
    pub destroyed: Vec<DestroyedMeteor>,
    /// Entities to remove from the simulation.
    pub despawned: Vec<u64>,
}

/// Drain one tick's contact reports against the live projectiles and
/// meteors. With `resolve_all` unset only the first resolvable pair is
/// processed, as the game has always done; set, every distinct pair is.
pub fn resolve_collisions(
    events: &Vec<CollisionEvent>,
    lasers: &Vec<LaserState>,
    meteors: &Vec<MeteorBody>,
    resolve_all: bool,
) -> (r: ResolveOutcome)
    requires
        forall|j: int| 0 <= j < meteors@.len() ==> (#[trigger] meteors@[j]).wf(),
    ensures
        ({
            let fin = resolve_upto(events@, lasers@, meteors@, resolve_all, events@.len() as int);
            &&& r.fragments@ == fin.fragments
            &&& r.destroyed@ == fin.destroyed
            &&& r.despawned@ == fin.despawned
        }),
{
    let mut processed: Vec<u64> = Vec::new();
    let mut fragments: Vec<Vec3i> = Vec::new();
    let mut destroyed: Vec<DestroyedMeteor> = Vec::new();
    let mut despawned: Vec<u64> = Vec::new();
    let mut done: bool = false;
    let n = events.len();
    let mut i: usize = 0;
    while i < n
        invariant
            i <= n,
            n == events@.len(),
            forall|j: int| 0 <= j < meteors@.len() ==> (#[trigger] meteors@[j]).wf(),
            ({
                let st = resolve_upto(events@, lasers@, meteors@, resolve_all, i as int);
                &&& processed@ == st.processed
                &&& fragments@ == st.fragments
                &&& destroyed@ == st.destroyed
                &&& despawned@ == st.despawned
                &&& done == st.done
            }),
        decreases n - i,
    {
        let e = events[i];
        if !done {
            let touched = get_entities_touched(&e, &mut processed);
            match touched {
                None => {},
                Some((a, b)) => {
                    let mut laser_found: Option<LaserState> = None;
                    let mut k: usize = 0;
                    while k < lasers.len()
                        invariant
                            k <= lasers@.len(),
                            laser_found == find_laser_upto(lasers@, a, b, k as int),
                        decreases lasers@.len() - k,
                    {
                        let l = lasers[k];
                        if l.id == a || l.id == b {
                            laser_found = Some(l);
                        }
                        k = k + 1;
                    }
                    let mut meteor_found: Option<MeteorBody> = None;
                    let mut j: usize = 0;
                    while j < meteors.len() && meteor_found.is_none()
                        invariant
                            j <= meteors@.len(),
                            forall|t: int| 0 <= t < meteors@.len() ==> (#[trigger] meteors@[t]).wf(),
                            meteor_found is Some ==> find_meteor_from(meteors@, a, b, 0)
                                == meteor_found && meteor_found->0.wf(),
                            meteor_found is None ==> find_meteor_from(meteors@, a, b, 0)
                                == find_meteor_from(meteors@, a, b, j as int),
                        decreases meteors@.len() - j,
                    {
                        let mb = meteors[j];
                        if mb.id == a || mb.id == b {
                            meteor_found = Some(mb);
                        }
                        j = j + 1;
                    }
                    match (laser_found, meteor_found) {
                        (Some(l), Some(mb)) => {
                            let dir = laser_direction_of(&l.velocity);
                            let mv = apply_laser_direction_on_meteor(&mb.velocity, dir);
                            handle_entity_destruction(
                                &mut fragments,
                                &mut destroyed,
                                mb.level,
                                mb.weight,
                                mv,
                                mb.position,
                            );
                            despawned.push(a);
                            despawned.push(b);
                            if !resolve_all {
                                done = true;
                            }
                        },
                        _ => {},
                    }
                },
            }
        }
        i = i + 1;
    }
    ResolveOutcome { fragments, destroyed, despawned }
}

/// Two simultaneous start events that reference the same entity pair
/// resolve exactly once: the second report changes nothing.
pub proof fn lemma_collision_dedup(
    a: u64,
    b: u64,
    c: u64,
    d: u64,
    lasers: Seq<LaserState>,
    meteors: Seq<MeteorBody>,
    resolve_all: bool,
)
    requires
        c == a || c == b || d == a || d == b,
    ensures
        resolve_upto(
            seq![CollisionEvent::Started(a, b), CollisionEvent::Started(c, d)],
            lasers,
            meteors,
            resolve_all,
            2,
        ) == resolve_upto(seq![CollisionEvent::Started(a, b)], lasers, meteors, resolve_all, 1),
{
    let e1 = CollisionEvent::Started(a, b);
    let e2 = CollisionEvent::Started(c, d);
    let both = seq![e1, e2];
    let one = seq![e1];
    let st0 = initial_resolve_state();
    reveal_with_fuel(resolve_upto, 3);
    assert(resolve_upto(both, lasers, meteors, resolve_all, 1) == resolve_event(
        st0,
        e1,
        lasers,
        meteors,
        resolve_all,
    ));
    assert(resolve_upto(one, lasers, meteors, resolve_all, 1) == resolve_event(
        st0,
        e1,
        lasers,
        meteors,
        resolve_all,
    ));
    let st1 = resolve_event(st0, e1, lasers, meteors, resolve_all);
    let marked = st0.processed.push(a).push(b);
    assert(marked[0] == a && marked[1] == b);
    assert(marked.contains(a) && marked.contains(b));
    assert(st1.processed == marked);
    assert(resolve_event(st1, e2, lasers, meteors, resolve_all) == st1);
}

/// With the toggle off, a tick resolves at most one pair: at most one
/// effect, at most one fragmentation source, at most two despawns, and
/// the tick is closed the moment a pair resolves.
pub proof fn lemma_first_pair_only(
    events: Seq<CollisionEvent>,
    lasers: Seq<LaserState>,
    meteors: Seq<MeteorBody>,
    i: int,
)
    ensures
        ({
            let st = resolve_upto(events, lasers, meteors, false, i);
            &&& st.fragments.len() <= 1
            &&& st.destroyed.len() <= st.fragments.len()
            &&& st.despawned.len() <= 2
            &&& st.fragments.len() == 1 ==> st.done
            &&& st.despawned.len() == 2 * st.fragments.len()
        }),
    decreases i,
{
    if i > 0 {
        lemma_first_pair_only(events, lasers, meteors, i - 1);
    }
}

} // verus!
