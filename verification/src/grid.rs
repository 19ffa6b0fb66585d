//! The bounded rectangular world: its bounds and the dispatch of
//! instruction symbols over a robot.

use vstd::prelude::*;

use crate::MAX_COORDINATE_VALUE;
use crate::engine::run_instructions;
use crate::errors::ValidationError;
use crate::handlers::ForwardHandler;
use crate::handlers::InstructionHandler;
use crate::handlers::LeftHandler;
use crate::handlers::RightHandler;
use crate::robot::Robot;
use crate::scent::ScentSet;
use crate::validate_coordinate;

verus! {

/// The immutable bounds of the world: every cell `(x, y)` with
/// `0 <= x <= max_x` and `0 <= y <= max_y` is on the grid.
pub struct GridMap {
    max_x: u8,
    max_y: u8,
}

/// The mathematical value of the bounds.
pub ghost struct GridModel {
    pub max_x: int,
    pub max_y: int,
}

impl View for GridMap {
    type V = GridModel;

    closed spec fn view(&self) -> GridModel {
        GridModel { max_x: self.max_x as int, max_y: self.max_y as int }
    }
}

impl GridMap {
    /// Bounds holding the given corner coordinates.
    pub fn new(max_x: u8, max_y: u8) -> (r: GridMap)
        ensures
            r@ == (GridModel { max_x: max_x as int, max_y: max_y as int }),
    {
        GridMap { max_x, max_y }
    }
}

/// A grid's bounds are byte-sized: every cell on the grid has coordinates
/// that fit in `u8`.
pub proof fn lemma_grid_bounds(g: &Grid)
    ensures
        0 <= g@.max_x <= u8::MAX,
        0 <= g@.max_y <= u8::MAX,
{
}

/// Whether the cell `(x, y)` lies on a grid with bounds `g`.
pub open spec fn cell_inside(g: GridModel, x: int, y: int) -> bool {
    0 <= x <= g.max_x && 0 <= y <= g.max_y
}

/// The world a simulation runs on. Immutable once constructed.
pub struct Grid {
    map: GridMap,
}

impl View for Grid {
    type V = GridModel;

    closed spec fn view(&self) -> GridModel {
        self.map@
    }
}

impl Grid {
    /// A grid with the given corner coordinates. Fails when either bound
    /// exceeds the maximum coordinate value, before any robot is simulated.
    pub fn new(max_x: u8, max_y: u8) -> (r: Result<Grid, ValidationError>)
        ensures
            max_x <= MAX_COORDINATE_VALUE && max_y <= MAX_COORDINATE_VALUE ==> (r matches Ok(g)
                && g@ == (GridModel { max_x: max_x as int, max_y: max_y as int })),
            max_x > MAX_COORDINATE_VALUE || max_y > MAX_COORDINATE_VALUE ==> (r matches Err(e) && e
                == ValidationError::CoordinateTooLarge),
            r matches Ok(g) ==> g@.max_x <= MAX_COORDINATE_VALUE && g@.max_y
                <= MAX_COORDINATE_VALUE,
    {
        let max_x = validate_coordinate(max_x)?;
        let max_y = validate_coordinate(max_y)?;
        Ok(Grid { map: GridMap::new(max_x, max_y) })
    }

    /// Whether the cell `(x, y)` lies on this grid.
    pub fn is_inside(&self, x: i16, y: i16) -> (r: bool)
        ensures
            r == cell_inside(self@, x as int, y as int),
    {
        0 <= x && x <= self.map.max_x as i16 && 0 <= y && y <= self.map.max_y as i16
    }

    /// Drives `robot` through a whole line of instruction symbols, left to
    /// right, sharing `scents` with every other robot of the run: the
    /// result is exactly what `run_instructions` says of the line.
    pub fn process_instructions(
        &self,
        robot: &mut Robot,
        scents: &mut ScentSet,
        instruction_line: &str,
    )
        ensures
            ({
                let run = run_instructions(self@, old(robot)@, old(scents)@, instruction_line@);
                final(robot)@ == run.0 && final(scents)@ == run.1
            }),
    {
        let ghost m0 = robot@;
        let ghost scents0 = scents@;
        let n = instruction_line.unicode_len();
        let mut i: usize = 0;
        while i < n
            invariant
                n == instruction_line@.len(),
                0 <= i <= n,
                ({
                    let run = run_instructions(self@, m0, scents0, instruction_line@.take(i as int));
                    robot@ == run.0 && scents@ == run.1
                }),
            decreases n - i,
        {
            let c = instruction_line.get_char(i);
            proof {
                assert(instruction_line@.take(i as int + 1).drop_last() =~= instruction_line@.take(
                    i as int,
                ));
                assert(instruction_line@.take(i as int + 1).last() == instruction_line@[i as int]);
            }
            match c {
                'L' => {
                    let handler = LeftHandler;
                    handler.handle(self, robot, scents);
                },
                'R' => {
                    let handler = RightHandler;
                    handler.handle(self, robot, scents);
                },
                'F' => {
                    let handler = ForwardHandler;
                    handler.handle(self, robot, scents);
                },
                _ => {},
            }
            i += 1;
        }
        proof {
            assert(instruction_line@.take(n as int) =~= instruction_line@);
        }
    }
}

} // verus!
