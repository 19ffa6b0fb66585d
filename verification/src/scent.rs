//! The set of grid cells from which some robot is known to have fallen off
//! the grid. It is shared by every robot of one simulation run and only
//! ever grows.

use vstd::prelude::*;

verus! {

/// The cells marked as fatal departures. A cell is keyed by the coordinates
/// of the step that led off the grid, so a marked cell lies just outside
/// the bounds.
pub struct ScentSet {
    cells: Vec<(i16, i16)>,
}

impl ScentSet {
    /// The marked cells seen as a mathematical set of coordinate pairs.
    pub closed spec fn view(&self) -> Set<(int, int)> {
        self.cells@.map_values(|p: (i16, i16)| (p.0 as int, p.1 as int)).to_set()
    }

    #[verifier::type_invariant]
    spec fn wf(&self) -> bool {
        self.cells@.no_duplicates()
    }

    /// An empty scent set, for the start of a simulation run.
    pub fn new() -> (r: ScentSet)
        ensures
            r@ == Set::<(int, int)>::empty(),
    {
        let r = ScentSet { cells: Vec::new() };
        proof {
            assert(r@ =~= Set::<(int, int)>::empty());
        }
        r
    }

    /// Whether the cell `(x, y)` is marked.
    pub fn contains(&self, x: i16, y: i16) -> (r: bool)
        ensures
            r == self@.contains((x as int, y as int)),
    {
        let ghost mapped = self.cells@.map_values(|p: (i16, i16)| (p.0 as int, p.1 as int));
        let mut i: usize = 0;
        while i < self.cells.len()
            invariant
                0 <= i <= self.cells@.len(),
                mapped == self.cells@.map_values(|p: (i16, i16)| (p.0 as int, p.1 as int)),
                forall|k: int| 0 <= k < i ==> #[trigger] mapped[k] != (x as int, y as int),
            decreases self.cells@.len() - i,
        {
            let cell = self.cells[i];
            proof {
                assert(mapped[i as int] == (cell.0 as int, cell.1 as int));
            }
            if cell.0 == x && cell.1 == y {
                assert(mapped.contains((x as int, y as int)));
                return true;
            }
            i += 1;
        }
        proof {
            assert(!mapped.contains((x as int, y as int)));
        }
        false
    }

    /// Marks the cell `(x, y)`. Marking a cell twice changes nothing.
    pub fn insert(&mut self, x: i16, y: i16)
        ensures
            final(self)@ == old(self)@.insert((x as int, y as int)),
    {
        let present = self.contains(x, y);
        if present {
            proof {
                assert(old(self)@.insert((x as int, y as int)) =~= old(self)@);
            }
            return ;
        }
        proof {
            use_type_invariant(&*self);
        }
        let ghost old_cells = self.cells@;
        let ghost to_pair = |p: (i16, i16)| (p.0 as int, p.1 as int);
        let mut cells: Vec<(i16, i16)> = Vec::new();
        std::mem::swap(&mut cells, &mut self.cells);
        proof {
            assert forall|k: int| 0 <= k < old_cells.len() implies old_cells[k] != (x, y) by {
                assert(old_cells.map_values(to_pair)[k] == to_pair(old_cells[k]));
                if old_cells[k] == (x, y) {
                    assert(old_cells.map_values(to_pair).contains((x as int, y as int)));
                }
            }
        }
        cells.push((x, y));
        proof {
            assert(cells@ =~= old_cells.push((x, y)));
            assert forall|i: int, j: int|
                0 <= i < cells@.len() && 0 <= j < cells@.len() && i != j implies cells@[i]
                != cells@[j] by {
                if i < old_cells.len() && j < old_cells.len() {
                    assert(old_cells[i] != old_cells[j]);
                }
            }
            assert(cells@.no_duplicates());
        }
        self.cells = cells;
        proof {
            broadcast use vstd::seq_lib::lemma_seq_contains_after_push;

            let mapped0 = old_cells.map_values(to_pair);
            let mapped1 = self.cells@.map_values(to_pair);
            assert(mapped1 =~= mapped0.push((x as int, y as int)));
            assert(mapped1.to_set() =~= mapped0.to_set().insert((x as int, y as int)));
            assert(old(self)@ == mapped0.to_set());
        }
    }

    /// How many cells are marked.
    pub fn len(&self) -> (r: usize)
        ensures
            r == self@.len(),
    {
        proof {
            use_type_invariant(&*self);
            let to_pair = |p: (i16, i16)| (p.0 as int, p.1 as int);
            let mapped = self.cells@.map_values(to_pair);
            assert forall|i: int, j: int|
                0 <= i < mapped.len() && 0 <= j < mapped.len() && i != j implies mapped[i]
                != mapped[j] by {
                assert(self.cells@[i] != self.cells@[j]);
                assert(mapped[i] == to_pair(self.cells@[i]));
                assert(mapped[j] == to_pair(self.cells@[j]));
            }
            assert(mapped.no_duplicates());
            mapped.unique_seq_to_set();
        }
        self.cells.len()
    }
}

} // verus!
