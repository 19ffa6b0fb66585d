use robot_grid::Grid;
use robot_grid::Position;
use robot_grid::Robot;
use robot_grid::RobotStatus;
use robot_grid::ScentSet;

fn run_robot(grid: &Grid, scents: &mut ScentSet, start: &str, line: &str) -> Robot {
    let mut robot = Robot::new(Position::parse(start).unwrap());
    grid.process_instructions(&mut robot, scents, line);
    robot
}

#[test]
fn square_patrol_comes_back() {
    let grid = Grid::new(5, 3).unwrap();
    let mut scents = ScentSet::new();

    let robot = run_robot(&grid, &mut scents, "1 1 E", "RFRFRFRF");

    assert_eq!(robot.report(), "1 1 E");
    assert!(matches!(robot.status, RobotStatus::Located));
    assert_eq!(scents.len(), 0);
}

#[test]
fn falls_off_the_north_edge() {
    let grid = Grid::new(5, 3).unwrap();
    let mut scents = ScentSet::new();

    let robot = run_robot(&grid, &mut scents, "3 2 N", "FRRFLLFFRRFLL");

    assert_eq!(robot.report(), "3 3 N LOST");
    assert!(matches!(robot.status, RobotStatus::Lost));
    assert_eq!(scents.len(), 1);
    assert!(scents.contains(3, 4));
}

#[test]
fn later_robot_is_protected_by_the_scent() {
    let grid = Grid::new(5, 3).unwrap();
    let mut scents = ScentSet::new();

    let first = run_robot(&grid, &mut scents, "3 2 N", "FRRFLLFFRRFLL");
    assert_eq!(first.report(), "3 3 N LOST");

    let second = run_robot(&grid, &mut scents, "0 3 W", "LLFFFLFLFL");
    assert_eq!(second.report(), "2 3 S");
    assert!(matches!(second.status, RobotStatus::Located));
}

#[test]
fn single_fall_leaves_exactly_one_scent() {
    let grid = Grid::new(50, 50).unwrap();
    let mut scents = ScentSet::new();

    let robot = run_robot(&grid, &mut scents, "0 0 S", "F");

    assert_eq!(robot.report(), "0 0 S LOST");
    assert_eq!(scents.len(), 1);
    assert!(scents.contains(0, -1));
}

#[test]
fn scent_absorbs_every_repeated_attempt() {
    let grid = Grid::new(50, 50).unwrap();
    let mut scents = ScentSet::new();

    let first = run_robot(&grid, &mut scents, "0 0 S", "F");
    assert_eq!(first.report(), "0 0 S LOST");

    let second = run_robot(&grid, &mut scents, "0 0 S", "FFFFFFFF");
    assert_eq!(second.report(), "0 0 S");
    assert!(matches!(second.status, RobotStatus::Located));
    assert_eq!(scents.len(), 1);
}

#[test]
fn rotations_alone_never_move_the_robot() {
    let grid = Grid::new(5, 3).unwrap();
    let mut scents = ScentSet::new();

    let robot = run_robot(&grid, &mut scents, "2 2 N", "LLRRLRLR");

    assert_eq!(robot.last_position.x, 2);
    assert_eq!(robot.last_position.y, 2);
    assert!(matches!(robot.status, RobotStatus::Located));
    assert_eq!(scents.len(), 0);
}

#[test]
fn lost_robot_ignores_the_rest_of_its_line() {
    let grid = Grid::new(2, 2).unwrap();
    let mut scents = ScentSet::new();

    let robot = run_robot(&grid, &mut scents, "0 0 S", "FFRFF");

    // The fatal first step ends the line: no later symbol moves the robot.
    assert_eq!(robot.report(), "0 0 S LOST");
}

#[test]
fn unrecognized_symbols_are_ignored() {
    let grid = Grid::new(5, 3).unwrap();
    let mut scents = ScentSet::new();

    let robot = run_robot(&grid, &mut scents, "1 1 E", "AFB F");

    assert_eq!(robot.report(), "3 1 E");
    assert!(matches!(robot.status, RobotStatus::Located));
}
