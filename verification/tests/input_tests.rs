use topdown_core::direction::Direction;
use topdown_core::input::{sample_direction, KeySet};

fn keys(w: bool, s: bool, a: bool, d: bool) -> KeySet {
    KeySet {
        w,
        s,
        a,
        d,
        arrow_up: false,
        arrow_down: false,
        arrow_left: false,
        arrow_right: false,
    }
}

#[test]
fn up_beats_left() {
    assert_eq!(
        sample_direction(&keys(true, false, true, false)),
        Some(Direction::Up)
    );
}

#[test]
fn down_beats_right() {
    assert_eq!(
        sample_direction(&keys(false, true, false, true)),
        Some(Direction::Down)
    );
}

#[test]
fn up_beats_all_others() {
    assert_eq!(
        sample_direction(&keys(true, true, true, true)),
        Some(Direction::Up)
    );
}

#[test]
fn left_beats_right() {
    assert_eq!(
        sample_direction(&keys(false, false, true, true)),
        Some(Direction::Left)
    );
}

#[test]
fn single_keys_sample_their_direction() {
    assert_eq!(
        sample_direction(&keys(true, false, false, false)),
        Some(Direction::Up)
    );
    assert_eq!(
        sample_direction(&keys(false, true, false, false)),
        Some(Direction::Down)
    );
    assert_eq!(
        sample_direction(&keys(false, false, true, false)),
        Some(Direction::Left)
    );
    assert_eq!(
        sample_direction(&keys(false, false, false, true)),
        Some(Direction::Right)
    );
}

#[test]
fn arrow_aliases_sample_their_direction() {
    let mut k = keys(false, false, false, false);
    k.arrow_up = true;
    assert_eq!(sample_direction(&k), Some(Direction::Up));
    k.arrow_up = false;
    k.arrow_down = true;
    assert_eq!(sample_direction(&k), Some(Direction::Down));
    k.arrow_down = false;
    k.arrow_left = true;
    assert_eq!(sample_direction(&k), Some(Direction::Left));
    k.arrow_left = false;
    k.arrow_right = true;
    assert_eq!(sample_direction(&k), Some(Direction::Right));
}

#[test]
fn no_keys_sample_none() {
    assert_eq!(sample_direction(&KeySet::none_pressed()), None);
}

#[test]
fn alias_and_primary_of_different_directions_still_use_priority() {
    let mut k = keys(false, false, false, true);
    k.arrow_down = true;
    assert_eq!(sample_direction(&k), Some(Direction::Down));
}
