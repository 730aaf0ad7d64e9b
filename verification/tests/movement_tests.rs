use topdown_core::direction::Direction;
use topdown_core::player::{apply_movement, Player, DEFAULT_SPEED_MILLI};

fn player_at(x_micro: i64, y_micro: i64) -> Player {
    Player {
        x_micro,
        y_micro,
        speed_milli: DEFAULT_SPEED_MILLI,
        last_direction: Direction::Down,
    }
}

#[test]
fn new_player_defaults() {
    let p = Player::new();
    assert_eq!(p.x_micro, 0);
    assert_eq!(p.y_micro, 0);
    assert_eq!(p.speed_milli, 200_000);
    assert_eq!(p.last_direction, Direction::Down);
}

#[test]
fn press_right_for_one_second_at_default_speed() {
    // One second at 200 units/s moves the character to (200, 0) exactly.
    let mut p = Player::new();
    apply_movement(&mut p, Some(Direction::Right), 1000);
    assert_eq!(p.x_micro, 200_000_000);
    assert_eq!(p.y_micro, 0);
    assert_eq!(p.last_direction, Direction::Right);
}

#[test]
fn idle_frame_changes_nothing() {
    let mut p = player_at(123, -456);
    p.last_direction = Direction::Left;
    apply_movement(&mut p, None, 1000);
    assert_eq!(p.x_micro, 123);
    assert_eq!(p.y_micro, -456);
    assert_eq!(p.last_direction, Direction::Left);
}

#[test]
fn each_direction_moves_along_its_axis() {
    let mut p = player_at(0, 0);
    p.speed_milli = 5_000;
    apply_movement(&mut p, Some(Direction::Up), 3);
    assert_eq!((p.x_micro, p.y_micro), (0, 15_000));
    apply_movement(&mut p, Some(Direction::Down), 3);
    assert_eq!((p.x_micro, p.y_micro), (0, 0));
    apply_movement(&mut p, Some(Direction::Left), 3);
    assert_eq!((p.x_micro, p.y_micro), (-15_000, 0));
    apply_movement(&mut p, Some(Direction::Right), 3);
    assert_eq!((p.x_micro, p.y_micro), (0, 0));
}

#[test]
fn displacement_magnitude_is_speed_times_time() {
    let mut p = player_at(1_000, 2_000);
    p.speed_milli = 7;
    apply_movement(&mut p, Some(Direction::Down), 13);
    let dx = p.x_micro - 1_000;
    let dy = p.y_micro - 2_000;
    assert_eq!(dx.abs() + dy.abs(), 7 * 13);
    assert!(dx == 0 || dy == 0);
}

#[test]
fn moving_updates_last_direction() {
    let mut p = player_at(0, 0);
    apply_movement(&mut p, Some(Direction::Up), 0);
    assert_eq!(p.last_direction, Direction::Up);
    apply_movement(&mut p, Some(Direction::Left), 0);
    assert_eq!(p.last_direction, Direction::Left);
}
