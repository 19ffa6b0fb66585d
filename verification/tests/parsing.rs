use robot_grid::Grid;
use robot_grid::Orientation;
use robot_grid::ParseError;
use robot_grid::Position;
use robot_grid::ValidationError;
use robot_grid::digits::u8_to_string;
use robot_grid::validate_coordinate;
use robot_grid::validate_instruction_line;

#[test]
fn position_round_trips_through_format() {
    for s in ["10 5 E", "0 0 N", "50 50 W", "3 2 S", "7 49 N"] {
        let p = Position::parse(s).unwrap();
        assert_eq!(p.format(), s);
    }
}

#[test]
fn parse_rejects_wrong_token_count() {
    assert_eq!(Position::parse(""), Err(ParseError::WrongTokenCount));
    assert_eq!(Position::parse("10"), Err(ParseError::WrongTokenCount));
    assert_eq!(Position::parse("10 5"), Err(ParseError::WrongTokenCount));
    assert_eq!(Position::parse("10 5 E N"), Err(ParseError::WrongTokenCount));
    assert_eq!(Position::parse("10  5 E"), Err(ParseError::WrongTokenCount));
}

#[test]
fn parse_rejects_bad_coordinates() {
    assert_eq!(Position::parse("a 5 E"), Err(ParseError::InvalidCoordinate));
    assert_eq!(Position::parse("1x 5 E"), Err(ParseError::InvalidCoordinate));
    assert_eq!(Position::parse("10 -1 E"), Err(ParseError::InvalidCoordinate));
    assert_eq!(Position::parse(" 5 E"), Err(ParseError::InvalidCoordinate));
}

#[test]
fn parse_rejects_coordinates_over_the_maximum() {
    assert_eq!(Position::parse("51 5 E"), Err(ParseError::CoordinateOutOfRange));
    assert_eq!(Position::parse("10 300 E"), Err(ParseError::CoordinateOutOfRange));
    assert_eq!(
        Position::parse("99999999999999999999 5 E"),
        Err(ParseError::CoordinateOutOfRange)
    );
}

#[test]
fn parse_rejects_bad_orientations() {
    assert_eq!(Position::parse("10 5 X"), Err(ParseError::InvalidOrientation));
    assert_eq!(Position::parse("10 5 EE"), Err(ParseError::InvalidOrientation));
    assert_eq!(Position::parse("10 5 n"), Err(ParseError::InvalidOrientation));
}

#[test]
fn parse_accepts_leading_zeros() {
    let p = Position::parse("007 05 W").unwrap();
    assert_eq!(p.x, 7);
    assert_eq!(p.y, 5);
    assert!(matches!(p.orientation, Orientation::West));
    // The canonical rendering drops the leading zeros.
    assert_eq!(p.format(), "7 5 W");
}

#[test]
fn orientation_parses_and_formats_each_letter() {
    for (s, o) in [
        ("N", Orientation::North),
        ("E", Orientation::East),
        ("S", Orientation::South),
        ("W", Orientation::West),
    ] {
        assert_eq!(Orientation::parse(s), Ok(o));
        assert_eq!(o.format(), s);
    }
    assert_eq!(Orientation::parse("Q"), Err(ParseError::InvalidOrientation));
    assert_eq!(Orientation::parse("NE"), Err(ParseError::InvalidOrientation));
}

#[test]
fn rotating_right_then_left_comes_back() {
    for o in [
        Orientation::North,
        Orientation::East,
        Orientation::South,
        Orientation::West,
    ] {
        assert_eq!(o.rotate_right().rotate_left(), o);
        assert_eq!(o.rotate_left().rotate_right(), o);
        assert_eq!(
            o.rotate_left().rotate_left().rotate_left().rotate_left(),
            o
        );
    }
}

#[test]
fn coordinates_are_validated_against_the_maximum() {
    assert_eq!(validate_coordinate(0), Ok(0));
    assert_eq!(validate_coordinate(50), Ok(50));
    assert_eq!(
        validate_coordinate(51),
        Err(ValidationError::CoordinateTooLarge)
    );
}

#[test]
fn grid_construction_checks_both_bounds() {
    assert!(Grid::new(50, 50).is_ok());
    assert_eq!(
        Grid::new(51, 3).err(),
        Some(ValidationError::CoordinateTooLarge)
    );
    assert_eq!(
        Grid::new(5, 51).err(),
        Some(ValidationError::CoordinateTooLarge)
    );
}

#[test]
fn is_inside_checks_all_four_edges() {
    let grid = Grid::new(5, 3).unwrap();
    assert!(grid.is_inside(0, 0));
    assert!(grid.is_inside(5, 3));
    assert!(!grid.is_inside(-1, 0));
    assert!(!grid.is_inside(0, -1));
    assert!(!grid.is_inside(6, 0));
    assert!(!grid.is_inside(0, 4));
}

#[test]
fn numbers_render_without_leading_zeros() {
    assert_eq!(u8_to_string(0), "0");
    assert_eq!(u8_to_string(7), "7");
    assert_eq!(u8_to_string(42), "42");
    assert_eq!(u8_to_string(100), "100");
    assert_eq!(u8_to_string(255), "255");
}

#[test]
fn instruction_lines_are_capped_at_one_hundred_characters() {
    let just_right = "F".repeat(100);
    let too_long = "F".repeat(101);
    assert_eq!(validate_instruction_line(&just_right), Ok(()));
    assert_eq!(
        validate_instruction_line(&too_long),
        Err(ParseError::InstructionLineTooLong)
    );
}

#[test]
fn formatting_handles_three_digit_coordinates() {
    let p = Position { x: 255, y: 0, orientation: Orientation::North };
    assert_eq!(p.format(), "255 0 N");
}
