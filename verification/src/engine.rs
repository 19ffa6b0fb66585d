//! The instruction engine's transition relation: what one instruction
//! symbol, and a whole line of them, does to a robot and to the shared
//! scent set.

use vstd::prelude::*;

use crate::grid::GridModel;
use crate::grid::cell_inside;
use crate::orientation::Orientation;
use crate::orientation::spec_rotate_left;
use crate::orientation::spec_rotate_right;
use crate::robot::RobotModel;

verus! {

/// The x coordinate one step ahead of `(x, _)` facing `o`.
pub open spec fn forward_x(x: int, o: Orientation) -> int {
    match o {
        Orientation::East => x + 1,
        Orientation::West => x - 1,
        _ => x,
    }
}

/// The y coordinate one step ahead of `(_, y)` facing `o`.
pub open spec fn forward_y(y: int, o: Orientation) -> int {
    match o {
        Orientation::North => y + 1,
        Orientation::South => y - 1,
        _ => y,
    }
}

/// What one forward move does to a robot that is not lost: a move into a
/// scented cell is ignored; a move off the grid loses the robot where it
/// stands and marks the cell it would have reached; any other move steps
/// one cell ahead.
pub open spec fn forward_step(g: GridModel, m: RobotModel, scents: Set<(int, int)>) -> (
    RobotModel,
    Set<(int, int)>,
) {
    let nx = forward_x(m.x, m.orientation);
    let ny = forward_y(m.y, m.orientation);
    if scents.contains((nx, ny)) {
        (m, scents)
    } else if !cell_inside(g, nx, ny) {
        (RobotModel { lost: true, ..m }, scents.insert((nx, ny)))
    } else {
        (RobotModel { x: nx, y: ny, ..m }, scents)
    }
}

/// What one instruction symbol does to a robot and the scent set. A lost
/// robot ignores every further symbol; a symbol that is no instruction is
/// ignored.
pub open spec fn step_instruction(
    g: GridModel,
    m: RobotModel,
    scents: Set<(int, int)>,
    c: char,
) -> (RobotModel, Set<(int, int)>) {
    if m.lost {
        (m, scents)
    } else if c == 'L' {
        (RobotModel { orientation: spec_rotate_left(m.orientation), ..m }, scents)
    } else if c == 'R' {
        (RobotModel { orientation: spec_rotate_right(m.orientation), ..m }, scents)
    } else if c == 'F' {
        forward_step(g, m, scents)
    } else {
        (m, scents)
    }
}

/// What a whole line of instruction symbols does, applied left to right.
pub open spec fn run_instructions(
    g: GridModel,
    m: RobotModel,
    scents: Set<(int, int)>,
    line: Seq<char>,
) -> (RobotModel, Set<(int, int)>)
    decreases line.len(),
{
    if line.len() == 0 {
        (m, scents)
    } else {
        let prev = run_instructions(g, m, scents, line.drop_last());
        step_instruction(g, prev.0, prev.1, line.last())
    }
}

/// A lost robot ignores a whole line of instructions: nothing about it or
/// about the scent set changes.
pub proof fn lemma_lost_is_terminal(
    g: GridModel,
    m: RobotModel,
    scents: Set<(int, int)>,
    line: Seq<char>,
)
    requires
        m.lost,
    ensures
        run_instructions(g, m, scents, line) == (m, scents),
    decreases line.len(),
{
    if line.len() > 0 {
        lemma_lost_is_terminal(g, m, scents, line.drop_last());
    }
}

/// A line of rotate instructions alone never changes the robot's
/// coordinates, its status, or the scent set.
pub proof fn lemma_rotations_keep_coordinates(
    g: GridModel,
    m: RobotModel,
    scents: Set<(int, int)>,
    line: Seq<char>,
)
    requires
        forall|i: int| 0 <= i < line.len() ==> line[i] == 'L' || line[i] == 'R',
    ensures
        run_instructions(g, m, scents, line).0.x == m.x,
        run_instructions(g, m, scents, line).0.y == m.y,
        run_instructions(g, m, scents, line).0.lost == m.lost,
        run_instructions(g, m, scents, line).1 == scents,
    decreases line.len(),
{
    if line.len() > 0 {
        lemma_rotations_keep_coordinates(g, m, scents, line.drop_last());
    }
}

/// An instruction that loses the robot leaves its coordinates and its
/// orientation exactly as they were before that instruction: the off-grid
/// candidate cell is never written into the robot.
pub proof fn lemma_fatal_step_keeps_position(
    g: GridModel,
    m: RobotModel,
    scents: Set<(int, int)>,
    c: char,
)
    requires
        !m.lost,
        step_instruction(g, m, scents, c).0.lost,
    ensures
        step_instruction(g, m, scents, c).0.x == m.x,
        step_instruction(g, m, scents, c).0.y == m.y,
        step_instruction(g, m, scents, c).0.orientation == m.orientation,
{
}

/// Whether the instruction at `k` of `line` is the one that loses the
/// robot, and the robot ends the line exactly as that instruction left it:
/// at the coordinates and orientation it held just before the fatal move.
pub open spec fn fatal_instruction_at(
    g: GridModel,
    m: RobotModel,
    scents: Set<(int, int)>,
    line: Seq<char>,
    k: int,
) -> bool {
    let before = run_instructions(g, m, scents, line.take(k));
    let after = step_instruction(g, before.0, before.1, line[k]);
    &&& !before.0.lost
    &&& after.0.lost
    &&& after.0.x == before.0.x
    &&& after.0.y == before.0.y
    &&& after.0.orientation == before.0.orientation
    &&& run_instructions(g, m, scents, line).0 == after.0
}

/// A robot that ends a line lost went lost at one instruction of the line,
/// and retains the coordinates and the orientation it held immediately
/// before that fatal instruction.
pub proof fn lemma_lost_keeps_prior_state(
    g: GridModel,
    m: RobotModel,
    scents: Set<(int, int)>,
    line: Seq<char>,
)
    requires
        !m.lost,
        run_instructions(g, m, scents, line).0.lost,
    ensures
        exists|k: int| 0 <= k < line.len() && fatal_instruction_at(g, m, scents, line, k),
    decreases line.len(),
{
    let prev = run_instructions(g, m, scents, line.drop_last());
    if prev.0.lost {
        lemma_lost_keeps_prior_state(g, m, scents, line.drop_last());
        let k = choose|k: int|
            0 <= k < line.drop_last().len() && fatal_instruction_at(
                g,
                m,
                scents,
                line.drop_last(),
                k,
            );
        assert(line.drop_last().take(k) =~= line.take(k));
        assert(fatal_instruction_at(g, m, scents, line, k));
    } else {
        let k = line.len() - 1;
        assert(line.take(k) =~= line.drop_last());
        assert(line[k] == line.last());
        assert(fatal_instruction_at(g, m, scents, line, k));
    }
}

/// A robot that starts on the grid stays on it, whatever the line asks:
/// a lost robot keeps the in-bounds cell it fell from.
pub proof fn lemma_run_stays_inside(
    g: GridModel,
    m: RobotModel,
    scents: Set<(int, int)>,
    line: Seq<char>,
)
    requires
        cell_inside(g, m.x, m.y),
    ensures
        cell_inside(
            g,
            run_instructions(g, m, scents, line).0.x,
            run_instructions(g, m, scents, line).0.y,
        ),
    decreases line.len(),
{
    if line.len() > 0 {
        lemma_run_stays_inside(g, m, scents, line.drop_last());
    }
}

/// Once a cell is scented, the identical fatal forward attempt is ignored:
/// the robot stays in place, stays located, and the scent set is unchanged.
pub proof fn lemma_scent_protects(g: GridModel, m: RobotModel, scents: Set<(int, int)>)
    requires
        !m.lost,
        scents.contains((forward_x(m.x, m.orientation), forward_y(m.y, m.orientation))),
    ensures
        step_instruction(g, m, scents, 'F') == (m, scents),
{
}

/// The scent set only ever grows: every cell scented before a line is
/// still scented after it.
pub proof fn lemma_scents_grow(
    g: GridModel,
    m: RobotModel,
    scents: Set<(int, int)>,
    line: Seq<char>,
)
    ensures
        scents.subset_of(run_instructions(g, m, scents, line).1),
    decreases line.len(),
{
    if line.len() > 0 {
        lemma_scents_grow(g, m, scents, line.drop_last());
    }
}

} // verus!
