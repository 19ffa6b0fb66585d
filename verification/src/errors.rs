//! Error values reported while reading input for a simulation.

use vstd::prelude::*;

verus! {

/// A coordinate handed to a constructor was larger than the fixed maximum.
#[derive(Clone, Copy, Debug, PartialEq, Eq, Structural)]
pub enum ValidationError {
    CoordinateTooLarge,
}

/// A textual position could not be read.
#[derive(Clone, Copy, Debug, PartialEq, Eq, Structural)]
pub enum ParseError {
    /// The text did not split into exactly three tokens.
    WrongTokenCount,
    /// A coordinate token was empty or held a character that is no digit.
    InvalidCoordinate,
    /// A coordinate token was a number larger than the maximum coordinate.
    CoordinateOutOfRange,
    /// The orientation token was not one of "N", "E", "S", "W".
    InvalidOrientation,
    /// An instruction line was longer than the fixed maximum length.
    InstructionLineTooLong,
}

} // verus!
