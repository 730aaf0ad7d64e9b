//! The per-frame pipeline, statically ordered: input sampling, movement,
//! animation, camera follow.  A missing character or viewport makes the
//! affected steps skip for that frame instead of failing it.

use vstd::prelude::*;

use crate::animation::AnimationState;
use crate::animation::DEFAULT_PERIOD_MS;
use crate::animation::spec_advance;
use crate::direction::Direction;
use crate::camera::HALF_UNIT_MICRO;
use crate::camera::Viewport;
use crate::camera::round_in_range;
use crate::camera::spec_follow;
use crate::input::KeySet;
use crate::input::sample_direction;
use crate::input::spec_sample;
use crate::player::DEFAULT_SPEED_MILLI;
use crate::player::Player;
use crate::player::apply_movement;
use crate::player::displacement_micro;
use crate::player::move_in_range;
use crate::player::spec_move;

verus! {

/// The whole simulation state: one controlled character, its animation, and
/// the viewport that observes it.  Each is optional so that startup and
/// teardown transients (an entity not spawned yet, or already gone) degrade
/// to a per-frame skip, never an abort.
#[derive(Clone, Copy, Debug, PartialEq, Eq, Structural)]
pub struct World {
    /// The controlled character, if present.
    pub player: Option<Player>,
    /// The character's animation state, if present.
    pub animation: Option<AnimationState>,
    /// The viewport, if present.
    pub viewport: Option<Viewport>,
}

impl World {
    /// The world's invariant: a present animation is well-formed.
    pub open spec fn wf(self) -> bool {
        self.animation matches Some(a) ==> a.wf()
    }

    /// A freshly started world: the character at the origin with its default
    /// speed and facing, a default animation, and the viewport at the
    /// origin.
    pub fn new() -> (w: World)
        ensures
            w.player matches Some(p) && p.x_micro == 0 && p.y_micro == 0 && p.speed_milli
                == DEFAULT_SPEED_MILLI && p.last_direction == Direction::Down,
            w.animation matches Some(a) && a.timer.period_ms == DEFAULT_PERIOD_MS
                && a.timer.elapsed_ms == 0 && a.frame_index == 0,
            w.viewport == Some((Viewport { x: 0i64, y: 0i64 })),
            w.wf(),
    {
        World {
            player: Some(Player::new()),
            animation: Some(AnimationState::new()),
            viewport: Some(Viewport::new()),
        }
    }
}

/// A whole frame's movement fits the machine range, with half a unit of
/// headroom kept on each coordinate so that the camera can round the moved
/// position afterwards.
pub open spec fn frame_in_range(p: Player, dt_ms: u32) -> bool {
    let d = displacement_micro(p.speed_milli, dt_ms);
    &&& d <= i64::MAX
    &&& -(i64::MAX - HALF_UNIT_MICRO) <= p.x_micro - d
    &&& p.x_micro + d <= i64::MAX - HALF_UNIT_MICRO
    &&& -(i64::MAX - HALF_UNIT_MICRO) <= p.y_micro - d
    &&& p.y_micro + d <= i64::MAX - HALF_UNIT_MICRO
}

/// One frame's displacement is never negative.
pub proof fn lemma_displacement_nonneg(speed_milli: u32, dt_ms: u32)
    ensures
        displacement_micro(speed_milli, dt_ms) >= 0,
{
    let s = speed_milli as int;
    let t = dt_ms as int;
    assert(s * t >= 0) by (nonlinear_arith)
        requires
            s >= 0,
            t >= 0,
    ;
}

/// The world after the input, movement and animation steps of one frame.
/// Without a character nothing at all happens; otherwise the character moves
/// by the sampled direction and the animation (if present) advances against
/// the facing direction as it stood before this frame's movement.
pub open spec fn spec_move_and_animate(w: World, keys: KeySet, dt_ms: u32) -> World {
    match w.player {
        None => w,
        Some(p) => World {
            player: Some(spec_move(p, spec_sample(keys), dt_ms)),
            animation: match w.animation {
                None => None,
                Some(a) => Some(spec_advance(a, dt_ms, spec_sample(keys), p.last_direction)),
            },
            viewport: w.viewport,
        },
    }
}

/// The world after the camera-follow step: with both a character and a
/// viewport present, the viewport snaps to the character's rounded position;
/// with either absent, the frame skips the step and the world is unchanged.
pub open spec fn spec_attach_camera(w: World) -> World {
    match (w.player, w.viewport) {
        (Some(p), Some(_)) => World {
            player: w.player,
            animation: w.animation,
            viewport: Some(spec_follow(p)),
        },
        _ => w,
    }
}

/// The world after one whole frame, in the fixed order: input sampling,
/// movement, animation, camera follow.
pub open spec fn spec_step_frame(w: World, keys: KeySet, dt_ms: u32) -> World {
    spec_attach_camera(spec_move_and_animate(w, keys, dt_ms))
}

/// Input sampling, movement and animation for one frame, in that order.
///
/// The animation observes the sampled direction of this same frame together
/// with the facing direction snapshotted before the movement update, so a
/// direction change is detected against the previous frame's facing.
pub fn move_and_animate(w: &mut World, keys: &KeySet, dt_ms: u32)
    requires
        old(w).wf(),
        old(w).player matches Some(p) ==> move_in_range(p, dt_ms),
    ensures
        *final(w) == spec_move_and_animate(*old(w), *keys, dt_ms),
        final(w).wf(),
{
    let sampled = sample_direction(keys);
    match w.player {
        None => {},
        Some(p0) => {
            let prev = p0.last_direction;
            match &mut w.animation {
                None => {},
                Some(a) => a.advance(dt_ms, sampled, prev),
            }
            let mut p = p0;
            apply_movement(&mut p, sampled, dt_ms);
            w.player = Some(p);
        },
    }
}

/// Camera follow for one frame: snaps the viewport to the character's
/// integer-rounded position, skipping when the character or the viewport is
/// absent.
pub fn attach_camera_to_player(w: &mut World)
    requires
        old(w).player matches Some(p) ==> round_in_range(p.x_micro as int) && round_in_range(
            p.y_micro as int,
        ),
    ensures
        *final(w) == spec_attach_camera(*old(w)),
        final(w).wf() == old(w).wf(),
{
    match w.player {
        None => {},
        Some(p) => {
            match &mut w.viewport {
                None => {},
                Some(v) => v.follow(&p),
            }
        },
    }
}

/// One whole simulation frame, strictly ordered: input sampling, movement,
/// animation, camera follow.  The next frame does not begin until this call
/// returns.
pub fn step_frame(w: &mut World, keys: &KeySet, dt_ms: u32)
    requires
        old(w).wf(),
        old(w).player matches Some(p) ==> frame_in_range(p, dt_ms),
    ensures
        *final(w) == spec_step_frame(*old(w), *keys, dt_ms),
        final(w).wf(),
{
    proof {
        if let Some(p) = old(w).player {
            lemma_displacement_nonneg(p.speed_milli, dt_ms);
        }
    }
    move_and_animate(w, keys, dt_ms);
    attach_camera_to_player(w);
}

/// Camera idempotence law: running the camera-follow step again on a world
/// whose character has not moved leaves the viewport (and the whole world)
/// exactly as the first run left it.
pub proof fn lemma_camera_follow_idempotent(w: World)
    ensures
        spec_attach_camera(spec_attach_camera(w)) == spec_attach_camera(w),
{
}

} // verus!
