//! Simulation of robots moving on a bounded rectangular grid.
//!
//! A `Grid` holds the bounds of the world, a `Robot` carries a `Position`
//! and a status, and `Grid::process_instructions` drives a robot through a
//! line of instruction symbols, sharing a `ScentSet` across robots so that
//! a later robot cannot fall off the grid where an earlier one fell.

use vstd::prelude::*;

pub mod digits;
pub mod engine;
pub mod errors;
pub mod grid;
pub mod handlers;
pub mod orientation;
pub mod position;
pub mod robot;
pub mod scent;

pub use crate::errors::ParseError;
pub use crate::errors::ValidationError;
pub use crate::grid::Grid;
pub use crate::grid::GridMap;
pub use crate::handlers::ForwardHandler;
pub use crate::handlers::InstructionHandler;
pub use crate::handlers::LeftHandler;
pub use crate::handlers::RightHandler;
pub use crate::orientation::Orientation;
pub use crate::position::Position;
pub use crate::robot::Robot;
pub use crate::robot::RobotStatus;
pub use crate::scent::ScentSet;

verus! {

/// Largest value allowed for any coordinate, both for the grid bounds and
/// for a robot's starting coordinates.
pub const MAX_COORDINATE_VALUE: u8 = 50;

/// Largest number of characters allowed on one instruction line.
pub const MAX_INSTRUCTION_LINE_LENGTH: usize = 100;

/// Checks an instruction line against the fixed maximum length; a longer
/// line is rejected before any simulation runs.
pub fn validate_instruction_line(line: &str) -> (r: Result<(), ParseError>)
    ensures
        line@.len() <= MAX_INSTRUCTION_LINE_LENGTH ==> r == Ok::<(), ParseError>(()),
        line@.len() > MAX_INSTRUCTION_LINE_LENGTH ==> r == Err::<(), ParseError>(
            ParseError::InstructionLineTooLong,
        ),
{
    if line.unicode_len() > MAX_INSTRUCTION_LINE_LENGTH {
        Err(ParseError::InstructionLineTooLong)
    } else {
        Ok(())
    }
}

/// Checks a single coordinate against the fixed maximum coordinate value.
pub fn validate_coordinate(c: u8) -> (r: Result<u8, ValidationError>)
    ensures
        c <= MAX_COORDINATE_VALUE ==> r == Ok::<u8, ValidationError>(c),
        c > MAX_COORDINATE_VALUE ==> r == Err::<u8, ValidationError>(
            ValidationError::CoordinateTooLarge,
        ),
{
    if c > MAX_COORDINATE_VALUE {
        Err(ValidationError::CoordinateTooLarge)
    } else {
        Ok(c)
    }
}

} // verus!
