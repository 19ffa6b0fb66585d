//! The mutable subject of a simulation: a position together with an
//! alive-or-lost status.

use vstd::prelude::*;

use crate::orientation::Orientation;
use crate::position::Position;
use crate::position::spec_format_position;

verus! {

/// Whether a robot is still on the grid or has fallen off it. `Lost` is
/// terminal: no instruction changes a lost robot.
#[derive(Clone, Copy, Debug, PartialEq, Eq, Structural)]
pub enum RobotStatus {
    Located,
    Lost,
}

/// A robot: its position as of the last completed move, and its status.
#[derive(Clone, Copy, Debug, PartialEq, Eq, Structural)]
pub struct Robot {
    pub last_position: Position,
    pub status: RobotStatus,
}

/// The mathematical state of a robot.
pub ghost struct RobotModel {
    pub x: int,
    pub y: int,
    pub orientation: Orientation,
    pub lost: bool,
}

impl View for Robot {
    type V = RobotModel;

    open spec fn view(&self) -> RobotModel {
        RobotModel {
            x: self.last_position.x as int,
            y: self.last_position.y as int,
            orientation: self.last_position.orientation,
            lost: self.status == RobotStatus::Lost,
        }
    }
}

/// The report line of a robot: its position, with " LOST" appended when it
/// fell off the grid.
pub open spec fn spec_report(m: RobotModel) -> Seq<char> {
    if m.lost {
        spec_format_position(m.x as nat, m.y as nat, m.orientation) + seq![' ', 'L', 'O', 'S', 'T']
    } else {
        spec_format_position(m.x as nat, m.y as nat, m.orientation)
    }
}

impl Robot {
    /// A robot spawned at `position`, not yet lost.
    pub fn new(position: Position) -> (r: Robot)
        ensures
            r.last_position == position,
            r.status == RobotStatus::Located,
            r@ == (RobotModel {
                x: position.x as int,
                y: position.y as int,
                orientation: position.orientation,
                lost: false,
            }),
    {
        Robot { last_position: position, status: RobotStatus::Located }
    }

    /// Renders the report line for this robot, against `spec_report`.
    pub fn report(&self) -> (r: String)
        ensures
            r@ == spec_report(self@),
    {
        let mut r = self.last_position.format();
        match self.status {
            RobotStatus::Located => {},
            RobotStatus::Lost => {
                r.append(" LOST");
                proof {
                    reveal_strlit(" LOST");
                    assert(" LOST"@ =~= seq![' ', 'L', 'O', 'S', 'T']);
                }
            },
        }
        proof {
            assert(r@ =~= spec_report(self@));
        }
        r
    }
}

} // verus!
