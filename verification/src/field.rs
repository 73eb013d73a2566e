//! The playing field: a fixed grid of occupied cells with a per-row fill
//! count.  Row 0 is the hidden top; gravity pulls toward higher row indices.
//! Out-of-range coordinates count as blocked, never as a fault.

use vstd::prelude::*;

verus! {

use crate::{FIELD_H, FIELD_W};

/// How many cells of `row` are occupied.
pub open spec fn row_count(row: Seq<bool>) -> int
    decreases row.len(),
{
    if row.len() == 0 {
        0
    } else {
        row_count(row.drop_last()) + if row.last() {
            1int
        } else {
            0int
        }
    }
}

/// The grid every game starts from: all cells empty.
pub open spec fn empty_grid() -> Seq<Seq<bool>> {
    Seq::new(FIELD_H as nat, |y: int| Seq::new(FIELD_W as nat, |x: int| false))
}

/// Where the falling stack above a deleted row `y` ends: the smallest row
/// index `s` such that every row in `s..y` is non-empty.  Floating moves the
/// rows `s..y` down by one and leaves row `s` with row `y`'s old content.
pub open spec fn float_stop(g: Seq<Seq<bool>>, y: int) -> int
    decreases y,
{
    if y <= 0 {
        0
    } else if row_count(g[y - 1]) == 0 {
        y
    } else {
        float_stop(g, y - 1)
    }
}

/// The grid after floating row `y`: rows above the stop point and rows below
/// `y` stay, the stack `s..y` moves down one row, and row `y`'s old content
/// surfaces at the stop point.
pub open spec fn float_grid(g: Seq<Seq<bool>>, y: int) -> Seq<Seq<bool>> {
    let s = float_stop(g, y);
    Seq::new(
        g.len(),
        |i: int|
            if i < s || i > y {
                g[i]
            } else if i == s {
                g[y]
            } else {
                g[i - 1]
            },
    )
}

/// The playing field.  `counts` caches, for every row, how many of its cells
/// are occupied; `counts[y] == FIELD_W` exactly when row `y` is clearable.
pub struct Field {
    counts: Vec<usize>,
    rows: Vec<Vec<bool>>,
}

impl Field {
    /// The grid of occupied cells, row by row.
    pub closed spec fn grid(self) -> Seq<Seq<bool>> {
        Seq::new(self.rows@.len(), |y: int| self.rows@[y]@)
    }

    /// Well-formed: the grid is `FIELD_H` rows of `FIELD_W` cells, and every
    /// cached count equals the number of occupied cells of its row.
    pub closed spec fn wf(self) -> bool {
        &&& self.rows@.len() == FIELD_H
        &&& self.counts@.len() == FIELD_H
        &&& forall|y: int| 0 <= y < FIELD_H ==> (#[trigger] self.rows@[y])@.len() == FIELD_W
        &&& forall|y: int|
            0 <= y < FIELD_H ==> #[trigger] self.counts@[y] as int == row_count(self.grid()[y])
    }

    /// What `test` returns: blocked outside the grid, else the cell itself.
    pub open spec fn spec_test(self, x: int, y: int) -> bool {
        x < 0 || x >= FIELD_W || y < 0 || y >= FIELD_H || self.grid()[y][x]
    }

    pub fn new() -> (f: Field)
        ensures
            f.wf(),
            f.grid() == empty_grid(),
    {
        let mut counts: Vec<usize> = Vec::new();
        let mut rows: Vec<Vec<bool>> = Vec::new();
        let mut y: usize = 0;
        while y < FIELD_H
            invariant
                y <= FIELD_H,
                counts@.len() == y,
                rows@.len() == y,
                forall|i: int| 0 <= i < y ==> (#[trigger] rows@[i])@ =~= empty_grid()[i],
                forall|i: int| 0 <= i < y ==> #[trigger] counts@[i] == 0,
            decreases FIELD_H - y,
        {
            let mut row: Vec<bool> = Vec::new();
            let mut x: usize = 0;
            while x < FIELD_W
                invariant
                    x <= FIELD_W,
                    row@.len() == x,
                    forall|j: int| 0 <= j < x ==> !(#[trigger] row@[j]),
                decreases FIELD_W - x,
            {
                row.push(false);
                x = x + 1;
            }
            assert(row@ =~= empty_grid()[y as int]);
            rows.push(row);
            counts.push(0);
            y = y + 1;
        }
        let f = Field { counts, rows };
        proof {
            assert(f.grid() =~= empty_grid());
            assert forall|i: int| 0 <= i < FIELD_H implies #[trigger] f.counts@[i] as int
                == row_count(f.grid()[i]) by {
                lemma_row_count_all_false(f.grid()[i]);
            }
        }
        f
    }

    /// Collision probe: occupied, or out of bounds in any direction.
    pub fn test(&self, x: i8, y: i8) -> (r: bool)
        requires
            self.wf(),
        ensures
            r == self.spec_test(x as int, y as int),
    {
        if x < 0 || FIELD_W as i8 <= x || y < 0 || FIELD_H as i8 <= y {
            return true;
        }
        self.rows[y as usize][x as usize]
    }

    /// Marks a cell occupied and keeps that row's count in step.  Setting an
    /// already occupied cell changes nothing.
    pub fn set(&mut self, x: i8, y: i8)
        requires
            old(self).wf(),
            0 <= x < FIELD_W,
            0 <= y < FIELD_H,
        ensures
            final(self).wf(),
            final(self).grid() == old(self).grid().update(
                y as int,
                old(self).grid()[y as int].update(x as int, true),
            ),
    {
        let xu = x as usize;
        let yu = y as usize;
        if !self.rows[yu][xu] {
            let ghost old_row = self.rows@[yu as int]@;
            proof {
                lemma_row_count_bounds(old_row);
            }
            self.rows[yu][xu] = true;
            self.counts[yu] = self.counts[yu] + 1;
            proof {
                lemma_row_count_update(old_row, xu as int, true);
                assert(final(self).grid() =~= old(self).grid().update(
                    y as int,
                    old(self).grid()[y as int].update(x as int, true),
                ));
            }
        } else {
            proof {
                assert(old(self).grid()[y as int].update(x as int, true) =~= old(
                    self,
                ).grid()[y as int]);
                assert(final(self).grid() =~= old(self).grid().update(
                    y as int,
                    old(self).grid()[y as int].update(x as int, true),
                ));
            }
        }
    }

    /// The cached fill count of row `y`; by the row-count invariant this is
    /// exactly the number of occupied cells in that row.
    pub fn count(&self, y: i8) -> (c: usize)
        requires
            self.wf(),
            0 <= y < FIELD_H,
        ensures
            c as int == row_count(self.grid()[y as int]),
    {
        self.counts[y as usize]
    }

    /// A row is clearable exactly when every one of its cells is occupied.
    pub fn is_filled(&self, y: i8) -> (r: bool)
        requires
            self.wf(),
            0 <= y < FIELD_H,
        ensures
            r == (row_count(self.grid()[y as int]) == FIELD_W),
    {
        self.counts[y as usize] == FIELD_W
    }

    /// Clears row `y` if it is full and reports whether it did; a row that is
    /// not full is left alone.
    pub fn delete(&mut self, y: i8) -> (r: bool)
        requires
            old(self).wf(),
            0 <= y < FIELD_H,
        ensures
            final(self).wf(),
            r == (row_count(old(self).grid()[y as int]) == FIELD_W),
            r ==> final(self).grid() == old(self).grid().update(y as int, empty_grid()[y as int]),
            !r ==> *final(self) == *old(self),
    {
        let yu = y as usize;
        if self.counts[yu] != FIELD_W {
            return false;
        }
        let mut row: Vec<bool> = Vec::new();
        let mut x: usize = 0;
        while x < FIELD_W
            invariant
                x <= FIELD_W,
                row@.len() == x,
                forall|j: int| 0 <= j < x ==> !(#[trigger] row@[j]),
            decreases FIELD_W - x,
        {
            row.push(false);
            x = x + 1;
        }
        proof {
            assert(row@ =~= empty_grid()[y as int]);
            lemma_row_count_all_false(row@);
        }
        self.rows[yu] = row;
        self.counts[yu] = 0;
        proof {
            assert(final(self).grid() =~= old(self).grid().update(
                y as int,
                empty_grid()[y as int],
            ));
        }
        true
    }

    /// Gravity compaction after a deletion at row `y`: the stack of non-empty
    /// rows directly above moves down one row, stopping at the first empty
    /// row.  When several rows clear in one lock event, callers must float
    /// the lowest row index (the highest row on screen) first.
    pub fn float(&mut self, y: i8)
        requires
            old(self).wf(),
            0 <= y < FIELD_H,
        ensures
            final(self).wf(),
            final(self).grid() == float_grid(old(self).grid(), y as int),
    {
        let yu = y as usize;
        let mut s: usize = yu;
        while s > 0 && self.counts[s - 1] != 0
            invariant
                self.wf(),
                self == old(self),
                s <= yu,
                yu < FIELD_H,
                float_stop(self.grid(), yu as int) == float_stop(self.grid(), s as int),
            decreases s,
        {
            s = s - 1;
        }
        assert(float_stop(self.grid(), yu as int) == s as int);
        if s < yu {
            let row = self.rows.remove(yu);
            self.rows.insert(s, row);
            let cnt = self.counts.remove(yu);
            self.counts.insert(s, cnt);
            proof {
                let g = old(self).grid();
                assert(final(self).grid() =~= float_grid(g, y as int));
            }
        } else {
            proof {
                assert(final(self).grid() =~= float_grid(old(self).grid(), y as int));
            }
        }
    }

    /// A read-only snapshot of the grid, row by row.
    pub fn rows(&self) -> (r: Vec<Vec<bool>>)
        requires
            self.wf(),
        ensures
            r@.len() == FIELD_H,
            forall|y: int| 0 <= y < FIELD_H ==> (#[trigger] r@[y])@ == self.grid()[y],
    {
        let mut out: Vec<Vec<bool>> = Vec::new();
        let mut y: usize = 0;
        while y < FIELD_H
            invariant
                self.wf(),
                y <= FIELD_H,
                out@.len() == y,
                forall|i: int| 0 <= i < y ==> (#[trigger] out@[i])@ =~= self.grid()[i],
            decreases FIELD_H - y,
        {
            let mut row: Vec<bool> = Vec::new();
            let mut x: usize = 0;
            while x < FIELD_W
                invariant
                    self.wf(),
                    y < FIELD_H,
                    x <= FIELD_W,
                    row@.len() == x,
                    forall|j: int| 0 <= j < x ==> row@[j] == self.grid()[y as int][j],
                decreases FIELD_W - x,
            {
                row.push(self.rows[y][x]);
                x = x + 1;
            }
            out.push(row);
            y = y + 1;
        }
        out
    }
}

/// The number of occupied cells of a row lies between 0 and its length.
pub proof fn lemma_row_count_bounds(row: Seq<bool>)
    ensures
        0 <= row_count(row) <= row.len(),
    decreases row.len(),
{
    if row.len() > 0 {
        lemma_row_count_bounds(row.drop_last());
    }
}

/// A row without occupied cells counts zero.
pub proof fn lemma_row_count_all_false(row: Seq<bool>)
    requires
        forall|i: int| 0 <= i < row.len() ==> !row[i],
    ensures
        row_count(row) == 0,
    decreases row.len(),
{
    if row.len() > 0 {
        lemma_row_count_all_false(row.drop_last());
    }
}

/// How one cell update moves a row's count.
pub proof fn lemma_row_count_update(row: Seq<bool>, i: int, b: bool)
    requires
        0 <= i < row.len(),
    ensures
        row_count(row.update(i, b)) == row_count(row) - (if row[i] {
            1int
        } else {
            0int
        }) + (if b {
            1int
        } else {
            0int
        }),
    decreases row.len(),
{
    let updated = row.update(i, b);
    if i == row.len() - 1 {
        assert(updated.drop_last() =~= row.drop_last());
    } else {
        assert(updated.drop_last() =~= row.drop_last().update(i, b));
        lemma_row_count_update(row.drop_last(), i, b);
    }
}

/// Floating a row with only empty rows above it changes nothing: with an
/// empty stack there is nothing to pull down.
pub proof fn lemma_float_empty_above(g: Seq<Seq<bool>>, y: int)
    requires
        0 <= y < g.len(),
        forall|i: int| 0 <= i < y ==> row_count(#[trigger] g[i]) == 0,
    ensures
        float_grid(g, y) == g,
{
    assert(float_stop(g, y) == y);
    assert(float_grid(g, y) =~= g);
}

} // verus!
