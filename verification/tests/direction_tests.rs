use topdown_core::direction::Direction;

#[test]
fn row_bases_match_the_sprite_sheet_layout() {
    assert_eq!(Direction::Down.row_base(), 0);
    assert_eq!(Direction::Left.row_base(), 4);
    assert_eq!(Direction::Right.row_base(), 8);
    assert_eq!(Direction::Up.row_base(), 12);
}

#[test]
fn unit_vectors_are_the_cardinal_axes() {
    assert_eq!(Direction::Up.unit_vector(), (0, 1));
    assert_eq!(Direction::Down.unit_vector(), (0, -1));
    assert_eq!(Direction::Left.unit_vector(), (-1, 0));
    assert_eq!(Direction::Right.unit_vector(), (1, 0));
}
