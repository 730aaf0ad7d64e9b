//! Input sampling: reduces the frame's pressed-key snapshot to at most one
//! cardinal direction using a fixed priority order (Up > Down > Left > Right).

use vstd::prelude::*;

use crate::direction::Direction;

verus! {

/// The frame's pressed-key snapshot.  Each direction has a primary key
/// (W/S/A/D) and an arrow-key alias; either one activates the direction.
#[derive(Clone, Copy, Debug, PartialEq, Eq, Structural)]
pub struct KeySet {
    pub w: bool,
    pub s: bool,
    pub a: bool,
    pub d: bool,
    pub arrow_up: bool,
    pub arrow_down: bool,
    pub arrow_left: bool,
    pub arrow_right: bool,
}

impl KeySet {
    /// A snapshot with no key pressed.
    pub fn none_pressed() -> (k: KeySet)
        ensures
            !k.up_active() && !k.down_active() && !k.left_active() && !k.right_active(),
    {
        KeySet {
            w: false,
            s: false,
            a: false,
            d: false,
            arrow_up: false,
            arrow_down: false,
            arrow_left: false,
            arrow_right: false,
        }
    }

    /// Up is requested: W or the up arrow is pressed.
    pub open spec fn up_active(self) -> bool {
        self.w || self.arrow_up
    }

    /// Down is requested: S or the down arrow is pressed.
    pub open spec fn down_active(self) -> bool {
        self.s || self.arrow_down
    }

    /// Left is requested: A or the left arrow is pressed.
    pub open spec fn left_active(self) -> bool {
        self.a || self.arrow_left
    }

    /// Right is requested: D or the right arrow is pressed.
    pub open spec fn right_active(self) -> bool {
        self.d || self.arrow_right
    }
}

/// The direction the sampler yields for a key snapshot: the first active
/// direction in the fixed priority order Up, Down, Left, Right, or `None`
/// when no direction is active.
pub open spec fn spec_sample(k: KeySet) -> Option<Direction> {
    if k.up_active() {
        Some(Direction::Up)
    } else if k.down_active() {
        Some(Direction::Down)
    } else if k.left_active() {
        Some(Direction::Left)
    } else if k.right_active() {
        Some(Direction::Right)
    } else {
        None
    }
}

/// Reduces the pressed-key set to at most one cardinal direction.  Pure: no
/// side effects, a function of the snapshot alone.
pub fn sample_direction(keys: &KeySet) -> (r: Option<Direction>)
    ensures
        r == spec_sample(*keys),
{
    if keys.w || keys.arrow_up {
        Some(Direction::Up)
    } else if keys.s || keys.arrow_down {
        Some(Direction::Down)
    } else if keys.a || keys.arrow_left {
        Some(Direction::Left)
    } else if keys.d || keys.arrow_right {
        Some(Direction::Right)
    } else {
        None
    }
}

/// Priority law: however many directions are pressed at once, the sampler
/// returns exactly the highest-priority active one, in the fixed order
/// Up > Down > Left > Right, and `None` exactly when no direction is active.
pub proof fn lemma_sampler_priority(k: KeySet)
    ensures
        k.up_active() ==> spec_sample(k) == Some(Direction::Up),
        !k.up_active() && k.down_active() ==> spec_sample(k) == Some(Direction::Down),
        !k.up_active() && !k.down_active() && k.left_active() ==> spec_sample(k) == Some(
            Direction::Left,
        ),
        !k.up_active() && !k.down_active() && !k.left_active() && k.right_active()
            ==> spec_sample(k) == Some(Direction::Right),
        spec_sample(k) is None <==> !k.up_active() && !k.down_active() && !k.left_active()
            && !k.right_active(),
{
}

} // verus!
