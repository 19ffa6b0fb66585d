use robot_grid::Grid;
use robot_grid::Orientation;
use robot_grid::Position;
use robot_grid::Robot;
use robot_grid::RobotStatus;
use robot_grid::ScentSet;

#[test]
fn it_parses_robot_position() {
    let position: Position = Position::parse("10 5 E").unwrap();

    assert_eq!(position.x, 10);
    assert_eq!(position.y, 5);
    assert!(matches!(position.orientation, Orientation::East));
}

#[test]
fn it_processes_instructions() {
    let mut scents = ScentSet::new();
    let grid = Grid::new(50, 50).unwrap();

    // Robot#1
    {
        let mut robot = Robot::new(Position::parse("1 1 E").unwrap());

        grid.process_instructions(&mut robot, &mut scents, "RFRFRFRF");

        assert_eq!(robot.last_position.x, 1);
        assert_eq!(robot.last_position.y, 1);
        assert!(matches!(robot.last_position.orientation, Orientation::East));
    }

    // Robot#2
    {
        let mut robot = Robot::new(Position::parse("10 10 W").unwrap());

        grid.process_instructions(&mut robot, &mut scents, "RLLFFRLFRRRFFFFLRF");

        assert_eq!(robot.last_position.x, 15);
        assert_eq!(robot.last_position.y, 7);
        assert!(matches!(robot.last_position.orientation, Orientation::East));
    }
}

#[test]
fn it_can_fall_to_void() {
    let mut scents = ScentSet::new();
    let grid = Grid::new(50, 50).unwrap();

    let mut robot = Robot::new(Position::parse("0 0 S").unwrap());

    grid.process_instructions(&mut robot, &mut scents, "F");

    // Last position is not changed
    assert_eq!(robot.last_position.x, 0);
    assert_eq!(robot.last_position.y, 0);
    assert!(matches!(robot.last_position.orientation, Orientation::South));

    // It sets robot status to lost and adds the scent of the cell at (0, -1)
    assert!(matches!(robot.status, RobotStatus::Lost));
    assert_eq!(scents.len(), 1);
    assert!(scents.contains(0, -1));
}

#[test]
fn it_cant_fall_to_void_twice_on_same_spot() {
    let mut scents = ScentSet::new();
    let grid = Grid::new(50, 50).unwrap();

    // Robot#1
    {
        let mut robot = Robot::new(Position::parse("0 0 S").unwrap());

        grid.process_instructions(&mut robot, &mut scents, "F");

        // Last position is not changed
        assert_eq!(robot.last_position.x, 0);
        assert_eq!(robot.last_position.y, 0);
        assert!(matches!(robot.last_position.orientation, Orientation::South));

        // It sets robot status to lost and adds the scent of the cell at (0, -1)
        assert!(matches!(robot.status, RobotStatus::Lost));
        assert_eq!(scents.len(), 1);
        assert!(scents.contains(0, -1));
    }

    // Robot#2
    {
        let mut robot = Robot::new(Position::parse("0 0 S").unwrap());

        grid.process_instructions(&mut robot, &mut scents, "FFFFFFFF");

        // Last position is not changed
        assert_eq!(robot.last_position.x, 0);
        assert_eq!(robot.last_position.y, 0);
        assert!(matches!(robot.last_position.orientation, Orientation::South));

        // And this robot didn't fall so status is Located
        assert!(matches!(robot.status, RobotStatus::Located));
    }
}
