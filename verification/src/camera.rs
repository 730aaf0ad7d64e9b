//! Camera follow: the viewport snaps to the integer-rounded character
//! position every frame — no smoothing, no memory beyond the previous
//! rounded value, which is simply overwritten.

use vstd::prelude::*;

use crate::player::Player;

verus! {

/// Micro-units per world unit.
pub const MICRO_PER_UNIT: i64 = 1_000_000;

/// Half a world unit, in micro-units: the rounding threshold.
pub const HALF_UNIT_MICRO: i64 = 500_000;

/// The viewport, decoupled from the character's own transform.  Its
/// coordinates are whole world units: the integer rounding of the
/// character's position.
#[derive(Clone, Copy, Debug, PartialEq, Eq, Structural)]
pub struct Viewport {
    /// Viewport x, in whole world units.
    pub x: i64,
    /// Viewport y, in whole world units.
    pub y: i64,
}

/// A micro-unit coordinate can be rounded without over- or underflowing the
/// machine range: half a unit of headroom on either side.
pub open spec fn round_in_range(m: int) -> bool {
    &&& -(i64::MAX - HALF_UNIT_MICRO) <= m
    &&& m <= i64::MAX - HALF_UNIT_MICRO
}

/// The micro-unit coordinate rounded to the nearest whole world unit, ties
/// away from zero.
pub open spec fn spec_round_units(m: int) -> int {
    if m >= 0 {
        (m + HALF_UNIT_MICRO) / (MICRO_PER_UNIT as int)
    } else {
        -((-m + HALF_UNIT_MICRO) / (MICRO_PER_UNIT as int))
    }
}

/// Rounds a micro-unit coordinate to the nearest whole world unit, ties away
/// from zero.
pub fn round_units(m: i64) -> (r: i64)
    requires
        round_in_range(m as int),
    ensures
        r == spec_round_units(m as int),
{
    if m >= 0 {
        let q: u64 = (m as u64 + HALF_UNIT_MICRO as u64) / MICRO_PER_UNIT as u64;
        q as i64
    } else {
        let q: u64 = ((-m) as u64 + HALF_UNIT_MICRO as u64) / MICRO_PER_UNIT as u64;
        -(q as i64)
    }
}

/// The viewport that follows a character: each coordinate independently
/// rounded to the nearest whole unit.
pub open spec fn spec_follow(p: Player) -> Viewport {
    Viewport {
        x: spec_round_units(p.x_micro as int) as i64,
        y: spec_round_units(p.y_micro as int) as i64,
    }
}

impl Viewport {
    /// A fresh viewport at the origin.
    pub fn new() -> (v: Viewport)
        ensures
            v == (Viewport { x: 0i64, y: 0i64 }),
    {
        Viewport { x: 0, y: 0 }
    }

    /// Snaps the viewport to the integer-rounded character position:
    /// per-axis rounding to the nearest unit, ties away from zero.
    pub fn follow(&mut self, p: &Player)
        requires
            round_in_range(p.x_micro as int),
            round_in_range(p.y_micro as int),
        ensures
            *final(self) == spec_follow(*p),
    {
        self.x = round_units(p.x_micro);
        self.y = round_units(p.y_micro);
    }
}

/// Rounding law: the rounded coordinate never strays more than half a unit
/// (in micro-units) from the exact position, so the camera is zero-lag up to
/// the integer-rounding quantization.
pub proof fn lemma_round_units_close(m: int)
    requires
        round_in_range(m),
    ensures
        vstd::math::abs(spec_round_units(m) * MICRO_PER_UNIT - m) <= HALF_UNIT_MICRO,
{
    if m >= 0 {
        let n = m + HALF_UNIT_MICRO;
        vstd::arithmetic::div_mod::lemma_fundamental_div_mod(n, MICRO_PER_UNIT as int);
        vstd::arithmetic::div_mod::lemma_mod_bound(n, MICRO_PER_UNIT as int);
    } else {
        let n = -m + HALF_UNIT_MICRO;
        vstd::arithmetic::div_mod::lemma_fundamental_div_mod(n, MICRO_PER_UNIT as int);
        vstd::arithmetic::div_mod::lemma_mod_bound(n, MICRO_PER_UNIT as int);
    }
}

} // verus!
