//! One handler per instruction symbol. Each handler performs on a robot
//! exactly what `step_instruction` says its symbol does.

use vstd::prelude::*;

use crate::engine::step_instruction;
use crate::grid::Grid;
use crate::orientation::Orientation;
use crate::robot::Robot;
use crate::robot::RobotStatus;
use crate::scent::ScentSet;

verus! {

/// A behavior bound to one instruction symbol: applying the handler to a
/// robot does to it, and to the scent set, what `step_instruction` says
/// the symbol does.
pub trait InstructionHandler {
    /// The instruction symbol this handler stands for.
    spec fn symbol(&self) -> char;

    /// Applies this handler's instruction to `robot` on `grid`, sharing
    /// `scents` with every other robot of the run.
    fn handle(&self, grid: &Grid, robot: &mut Robot, scents: &mut ScentSet)
        ensures
            ({
                let step = step_instruction(grid@, old(robot)@, old(scents)@, self.symbol());
                final(robot)@ == step.0 && final(scents)@ == step.1
            }),
    ;
}

/// The rotate-left instruction.
pub struct LeftHandler;

impl InstructionHandler for LeftHandler {
    open spec fn symbol(&self) -> char {
        'L'
    }

    fn handle(&self, grid: &Grid, robot: &mut Robot, scents: &mut ScentSet) {
        // A lost robot ignores all further instructions.
        if robot.status == RobotStatus::Lost {
            return ;
        }
        robot.last_position.orientation = robot.last_position.orientation.rotate_left();
    }
}

/// The rotate-right instruction.
pub struct RightHandler;

impl InstructionHandler for RightHandler {
    open spec fn symbol(&self) -> char {
        'R'
    }

    fn handle(&self, grid: &Grid, robot: &mut Robot, scents: &mut ScentSet) {
        // A lost robot ignores all further instructions.
        if robot.status == RobotStatus::Lost {
            return ;
        }
        robot.last_position.orientation = robot.last_position.orientation.rotate_right();
    }
}

/// The move-forward instruction, with the fall-off check and the scent
/// rule.
pub struct ForwardHandler;

impl InstructionHandler for ForwardHandler {
    open spec fn symbol(&self) -> char {
        'F'
    }

    fn handle(&self, grid: &Grid, robot: &mut Robot, scents: &mut ScentSet) {
        // A lost robot ignores all further instructions.
        if robot.status == RobotStatus::Lost {
            return ;
        }
        let mut new_x: i16 = robot.last_position.x as i16;
        let mut new_y: i16 = robot.last_position.y as i16;
        match robot.last_position.orientation {
            Orientation::North => new_y += 1,
            Orientation::East => new_x += 1,
            Orientation::South => new_y -= 1,
            Orientation::West => new_x -= 1,
        }
        // A move into a scented cell is ignored.
        if scents.contains(new_x, new_y) {
            return ;
        }
        // The robot would fall off the grid: it is lost where it stands,
        // and the fatal cell is marked for every later robot.
        if !grid.is_inside(new_x, new_y) {
            robot.status = RobotStatus::Lost;
            scents.insert(new_x, new_y);
            return ;
        }
        proof {
            crate::grid::lemma_grid_bounds(grid);
        }
        robot.last_position.x = new_x as u8;
        robot.last_position.y = new_y as u8;
    }
}

} // verus!
