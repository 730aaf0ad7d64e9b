//! The character and the movement resolver: converts the sampled direction
//! into an axis-aligned displacement, updates the persistent facing
//! direction, and integrates the position by `speed * elapsed_time`.

use vstd::prelude::*;

use crate::direction::Direction;

verus! {

/// Default movement speed, in milli-units per second (200 world units/s).
pub const DEFAULT_SPEED_MILLI: u32 = 200_000;

/// The one controlled character of the simulation.
///
/// Positions are in micro-units (millionths of a world unit); the speed is
/// in milli-units per second.  With elapsed time in milliseconds, one
/// frame's displacement `speed * elapsed_time` is then an exact integer
/// number of micro-units.
#[derive(Clone, Copy, Debug, PartialEq, Eq, Structural)]
pub struct Player {
    /// World x coordinate, in micro-units.
    pub x_micro: i64,
    /// World y coordinate, in micro-units.
    pub y_micro: i64,
    /// Movement speed, in milli-units per second.
    pub speed_milli: u32,
    /// The most recent non-idle direction ever observed.  Never cleared by
    /// idleness; initialized to Down.
    pub last_direction: Direction,
}

/// The magnitude of one frame's displacement, in micro-units: the speed
/// (milli-units/s) times the elapsed time (ms).
pub open spec fn displacement_micro(speed_milli: u32, dt_ms: u32) -> int {
    speed_milli * dt_ms
}

/// The frame's displacement fits the position's machine range: moving one
/// step in any direction neither overflows nor underflows either coordinate.
pub open spec fn move_in_range(p: Player, dt_ms: u32) -> bool {
    let d = displacement_micro(p.speed_milli, dt_ms);
    &&& d <= i64::MAX
    &&& i64::MIN <= p.x_micro - d
    &&& p.x_micro + d <= i64::MAX
    &&& i64::MIN <= p.y_micro - d
    &&& p.y_micro + d <= i64::MAX
}

/// The character after one movement step: with a sampled direction the
/// facing turns to it and the position moves one displacement along its unit
/// axis; with none the character is unchanged.
pub open spec fn spec_move(p: Player, dir: Option<Direction>, dt_ms: u32) -> Player {
    match dir {
        None => p,
        Some(d) => Player {
            x_micro: (p.x_micro + d.spec_dx() * displacement_micro(p.speed_milli, dt_ms)) as i64,
            y_micro: (p.y_micro + d.spec_dy() * displacement_micro(p.speed_milli, dt_ms)) as i64,
            speed_milli: p.speed_milli,
            last_direction: d,
        },
    }
}

impl Player {
    /// A fresh character at the origin, facing Down, at the default speed.
    pub fn new() -> (p: Player)
        ensures
            p.x_micro == 0,
            p.y_micro == 0,
            p.speed_milli == DEFAULT_SPEED_MILLI,
            p.last_direction == Direction::Down,
    {
        Player { x_micro: 0, y_micro: 0, speed_milli: DEFAULT_SPEED_MILLI, last_direction: Direction::Down }
    }
}

/// Movement resolver: applies one frame's movement to the character.
///
/// With a sampled direction `Some(d)` the facing becomes `d` and the
/// position moves exactly `speed * elapsed_time` along `d`'s unit axis; with
/// `None` nothing changes.  Movement is axis-aligned by construction: the
/// sampler never yields a diagonal.
pub fn apply_movement(p: &mut Player, dir: Option<Direction>, dt_ms: u32)
    requires
        move_in_range(*old(p), dt_ms),
    ensures
        *final(p) == spec_move(*old(p), dir, dt_ms),
{
    proof {
        let s = old(p).speed_milli as int;
        let t = dt_ms as int;
        assert(s * t >= 0) by (nonlinear_arith)
            requires
                s >= 0,
                t >= 0,
        ;
    }
    let disp: i64 = (p.speed_milli as i64) * (dt_ms as i64);
    match dir {
        None => {},
        Some(d) => {
            p.last_direction = d;
            match d {
                Direction::Up => {
                    p.y_micro = p.y_micro + disp;
                },
                Direction::Down => {
                    p.y_micro = p.y_micro - disp;
                },
                Direction::Left => {
                    p.x_micro = p.x_micro - disp;
                },
                Direction::Right => {
                    p.x_micro = p.x_micro + disp;
                },
            }
        },
    }
}

/// Idle law: a frame whose sampled direction is `None` leaves the position
/// and the facing direction (and everything else of the character) unchanged.
pub proof fn lemma_idle_frame(p: Player, dt_ms: u32)
    ensures
        spec_move(p, None, dt_ms) == p,
{
}

/// Moving law: a frame with sampled direction `Some(d)` applies an
/// axis-aligned displacement of magnitude exactly `speed * elapsed_time`
/// (one coordinate moves by the full displacement, the other not at all),
/// and the facing direction becomes `d`; the speed is untouched.
pub proof fn lemma_moving_frame(p: Player, d: Direction, dt_ms: u32)
    requires
        move_in_range(p, dt_ms),
    ensures
        ({
            let q = spec_move(p, Some(d), dt_ms);
            let dx = q.x_micro - p.x_micro;
            let dy = q.y_micro - p.y_micro;
            &&& vstd::math::abs(dx) + vstd::math::abs(dy) == displacement_micro(
                p.speed_milli,
                dt_ms,
            )
            &&& dx == 0 || dy == 0
            &&& q.last_direction == d
            &&& q.speed_milli == p.speed_milli
        }),
{
    assert(p.speed_milli as int * dt_ms as int >= 0) by (nonlinear_arith);
}

} // verus!
