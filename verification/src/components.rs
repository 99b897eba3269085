//! Entity markers and small per-entity tags.
//!
//! These carry no behaviour of their own: systems use them to tell the
//! ship, its projectiles, enemies, effects and meteors apart, and to read
//! a meteor's size class, kind and fragmentation depth.

use vstd::prelude::*;

use crate::geometry::Vec3i;

verus! {

/// A request to put a destruction effect at an impact point.
#[derive(Clone, Copy, PartialEq, Eq, Structural, Debug)]
pub struct ExplosionToSpawn(pub Vec3i);

/// Marker for a projectile fired by someone.
pub struct Laser;

/// Marker for the player's ship.
pub struct Player;

/// Marker for anything the player fired or spawned.
pub struct FromPlayer;

/// Marker for an enemy ship.
pub struct Enemy;

/// Marker for anything an enemy fired or spawned.
pub struct FromEnemy;

/// Marker for a destruction effect.
pub struct Explosion;

/// Marker for the thrust flame behind the ship.
pub struct RocketFire;

/// Marker for a piece of exhaust debris.
pub struct RocketDrag;

/// Marker for a meteor body.
pub struct Meteor;

/// A meteor's mass tag.
#[derive(Clone, Copy, PartialEq, Eq, Structural, Debug)]
pub struct Weight(pub i32);

/// Which sprite family a meteor draws from.
#[derive(Clone, Copy, PartialEq, Eq, Structural, Debug)]
pub struct MeteorType(pub u8);

/// How many fragmentations produced this meteor: 1 for a root body,
/// rising by one per split, capped by the fragmentation rules.
#[derive(Clone, Copy, PartialEq, Eq, Structural, Debug)]
pub struct MeteorLevel(pub u8);

/// A meteor's behavioural state tag.
#[derive(Clone, Copy, PartialEq, Eq, Structural, Debug)]
pub struct MeteorState(pub u8);

} // verus!
