//! The toroidal play-field.
//!
//! A coordinate that leaves the field past the exit plane (half extent plus
//! a margin) re-enters at the opposite half extent, so a body slides off
//! one edge and back in at the other without popping. Entities flagged for
//! auto-despawn — projectiles, mostly — are removed at the edge instead of
//! wrapped; the two policies never mix.

use vstd::prelude::*;

use crate::geometry::Vec3i;
use crate::num::div_trunc;
use crate::num::div_trunc_i64;

verus! {

/// How far past the half extent an entity may drift before it wraps, in
/// milli steps (100 units).
pub const MARGIN: i64 = 100_000;

/// The widest play-field the rules accept, in milli steps.
pub const MAX_EXTENT: i64 = 1_000_000_000_000;

/// The play-field size, in milli steps.
pub struct WinSize {
    pub width: i64,
    pub height: i64,
}

impl WinSize {
    /// A usable field: positive and small enough that limit arithmetic
    /// stays exact.
    pub open spec fn wf(&self) -> bool {
        &&& 0 < self.width <= MAX_EXTENT
        &&& 0 < self.height <= MAX_EXTENT
    }

    /// Half the width: the wrap re-entry plane on the x axis.
    pub open spec fn half_width(&self) -> int {
        div_trunc(self.width as int, 2)
    }

    /// Half the height: the wrap re-entry plane on the y axis.
    pub open spec fn half_height(&self) -> int {
        div_trunc(self.height as int, 2)
    }
}

/// Whether an entity disappears at the field's edge rather than wrapping.
#[derive(Clone, Copy, PartialEq, Eq, Structural, Debug)]
pub struct Movable {
    pub auto_despawn: bool,
}

/// One coordinate after boundary correction: past the exit plane on
/// either side it re-enters at the opposite half extent, otherwise it is
/// untouched.
pub open spec fn wrap_coord(p: int, half: int, margin: int) -> int {
    if p > half + margin {
        -half
    } else if p < -(half + margin) {
        half
    } else {
        p
    }
}

/// A position after boundary correction on both planar axes.
pub open spec fn wrapped_point(p: Vec3i, win: WinSize) -> Vec3i {
    Vec3i {
        x: wrap_coord(p.x as int, win.half_width(), MARGIN as int) as i64,
        y: wrap_coord(p.y as int, win.half_height(), MARGIN as int) as i64,
        z: p.z,
    }
}

/// Whether a position lies beyond an exit plane on either axis.
pub open spec fn out_of_bounds(p: Vec3i, win: WinSize) -> bool {
    ||| p.x > win.half_width() + MARGIN
    ||| p.x < -(win.half_width() + MARGIN)
    ||| p.y > win.half_height() + MARGIN
    ||| p.y < -(win.half_height() + MARGIN)
}

/// Correct one coordinate against a half extent and the wrap margin.
pub fn wrap_coordinate(p: i64, half: i64, margin: i64) -> (r: i64)
    requires
        0 <= half,
        0 <= margin,
        half + margin <= i64::MAX,
    ensures
        r == wrap_coord(p as int, half as int, margin as int),
{
    let limit: i64 = half + margin;
    if p > limit {
        -half
    } else if p < -limit {
        half
    } else {
        p
    }
}

/// Correct a position against the play-field, or report that an
/// auto-despawning entity has left it.
pub fn apply_boundary(p: Vec3i, win: &WinSize, movable: &Movable) -> (r: Option<Vec3i>)
    requires
        win.wf(),
    ensures
        movable.auto_despawn && out_of_bounds(p, *win) ==> r is None,
        !(movable.auto_despawn && out_of_bounds(p, *win)) ==> r == Some(wrapped_point(p, *win)),
{
    let half_w: i64 = div_trunc_i64(win.width, 2);
    let half_h: i64 = div_trunc_i64(win.height, 2);
    proof {
        crate::num::lemma_div_trunc_bounds(win.width as int, 2, MAX_EXTENT as int);
        crate::num::lemma_div_trunc_bounds(win.height as int, 2, MAX_EXTENT as int);
    }
    let out = p.x > half_w + MARGIN || p.x < -(half_w + MARGIN) || p.y > half_h + MARGIN || p.y
        < -(half_h + MARGIN);
    if movable.auto_despawn && out {
        None
    } else {
        let x = wrap_coordinate(p.x, half_w, MARGIN);
        let y = wrap_coordinate(p.y, half_h, MARGIN);
        Some(Vec3i { x, y, z: p.z })
    }
}

/// Wrap every tracked position in place, the per-tick boundary pass for
/// entities that never despawn at the edge.
pub fn correction_screen_overflow(positions: &mut Vec<Vec3i>, win: &WinSize)
    requires
        win.wf(),
    ensures
        final(positions)@.len() == old(positions)@.len(),
        forall|j: int|
            0 <= j < old(positions)@.len() ==> final(positions)@[j] == wrapped_point(
                old(positions)@[j],
                *win,
            ),
{
    let half_w: i64 = div_trunc_i64(win.width, 2);
    let half_h: i64 = div_trunc_i64(win.height, 2);
    proof {
        crate::num::lemma_div_trunc_bounds(win.width as int, 2, MAX_EXTENT as int);
        crate::num::lemma_div_trunc_bounds(win.height as int, 2, MAX_EXTENT as int);
    }
    let n = positions.len();
    let mut i: usize = 0;
    while i < n
        invariant
            i <= n,
            positions@.len() == n,
            old(positions)@.len() == n,
            win.wf(),
            half_w == win.half_width(),
            half_h == win.half_height(),
            forall|j: int|
                0 <= j < i ==> positions@[j] == wrapped_point(old(positions)@[j], *win),
            forall|j: int| i <= j < n ==> positions@[j] == old(positions)@[j],
        decreases n - i,
    {
        let p = positions[i];
        let x = wrap_coordinate(p.x, half_w, MARGIN);
        let y = wrap_coordinate(p.y, half_h, MARGIN);
        positions.set(i, Vec3i { x, y, z: p.z });
        i = i + 1;
    }
}

/// The boundary rule, stated point-blank: a coordinate past the exit
/// plane lands exactly on the opposite half extent, and anything at or
/// inside the exit planes is left exactly where it was.
pub proof fn lemma_boundary_wrap(p: int, half: int, margin: int)
    requires
        0 <= half,
        0 <= margin,
    ensures
        p > half + margin ==> wrap_coord(p, half, margin) == -half,
        p < -(half + margin) ==> wrap_coord(p, half, margin) == half,
        -(half + margin) <= p <= half + margin ==> wrap_coord(p, half, margin) == p,
        -half - margin <= wrap_coord(p, half, margin) <= half + margin,
{
}

} // verus!
