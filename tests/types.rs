use cleaning_robot::types::{Command, Direction, Position, FIELD_LIMIT};

#[test]
fn shifts_position_with_boundary() {
    let position = Position { x: 1, y: 1 };
    let position = position.shift(&Direction::North);

    assert_eq!(position, Position { x: 1, y: 2 });

    let position = Position { x: 100000, y: 1 };
    let position = position.shift(&Direction::East);

    assert_eq!(position, Position { x: 100000, y: 1 });

    let position = Position { x: -100000, y: 1 };
    let position = position.shift(&Direction::West);

    assert_eq!(position, Position { x: -100000, y: 1 });

    let position = Position { x: 0, y: 0 };
    let position = position.shift(&Direction::West);

    assert_eq!(position, Position { x: -1, y: 0 })
}

#[test]
fn adds_positions() {
    let a = Position { x: 10, y: 5 };
    let b = Position { x: 15, y: 11 };

    assert_eq!(Position { x: 25, y: 16 }, a + b)
}

#[test]
fn adds_negative_position() {
    let a = Position { x: -10, y: 0 };
    let b = Position { x: 3, y: -210 };

    assert_eq!(Position { x: -7, y: -210 }, a + b)
}

#[test]
fn direction_offsets_are_unit_vectors() {
    assert_eq!(Position::from(&Direction::North), Position { x: 0, y: 1 });
    assert_eq!(Position::from(&Direction::South), Position { x: 0, y: -1 });
    assert_eq!(Position::from(&Direction::East), Position { x: 1, y: 0 });
    assert_eq!(Position::from(&Direction::West), Position { x: -1, y: 0 });
}

#[test]
fn shift_stops_at_every_edge() {
    let corner = Position { x: FIELD_LIMIT, y: -FIELD_LIMIT };
    assert_eq!(corner.shift(&Direction::East), corner);
    assert_eq!(corner.shift(&Direction::South), corner);
    assert_eq!(corner.shift(&Direction::North), Position { x: FIELD_LIMIT, y: -FIELD_LIMIT + 1 });
    assert_eq!(corner.shift(&Direction::West), Position { x: FIELD_LIMIT - 1, y: -FIELD_LIMIT });
}

#[test]
fn shift_from_far_outside_does_not_overflow() {
    let far = Position { x: i32::MAX, y: i32::MIN };
    assert_eq!(far.shift(&Direction::East), far);
    assert_eq!(far.shift(&Direction::South), far);
    assert_eq!(far.shift(&Direction::West), far);
}

#[test]
fn out_of_bounds_checks_both_axes() {
    assert!(!Position { x: FIELD_LIMIT, y: -FIELD_LIMIT }.out_of_bounds());
    assert!(Position { x: FIELD_LIMIT + 1, y: 0 }.out_of_bounds());
    assert!(Position { x: 0, y: -FIELD_LIMIT - 1 }.out_of_bounds());
}

#[test]
fn command_holds_its_fields() {
    let c = Command { direction: Direction::North, steps: 3 };
    assert_eq!(c.direction, Direction::North);
    assert_eq!(c.steps, 3);
}
