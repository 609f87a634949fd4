use vstd::prelude::*;

use std::collections::VecDeque;

verus! {

/// Which tiles of a stage are owned by the player (or lie on the path being drawn), by row
/// and column.
pub struct TileGrid {
    visited: Vec<Vec<bool>>,
    num_rows: usize,
    num_cols: usize,
}

/// Whether `(row, col)` lies in the square of half size `hs` around `(r, c)`, border included.
pub open spec fn spec_in_square(row: int, col: int, r: int, c: int, hs: int) -> bool {
    r - hs <= row <= r + hs && c - hs <= col <= c + hs
}

/// Whether `(row, col)` lies strictly inside the square of half size `hs` around `(r, c)`.
pub open spec fn spec_in_interior(row: int, col: int, r: int, c: int, hs: int) -> bool {
    r - hs < row < r + hs && c - hs < col < c + hs
}

/// The number of tiles on a side of the inside of a square of half size `hs`.
pub open spec fn spec_interior_width(hs: int) -> int {
    if hs == 0 {
        0
    } else {
        2 * hs - 1
    }
}

/// How many of the `w` consecutive positions from `lo` lie below `x`.
pub open spec fn spec_done(x: int, lo: int, w: int) -> int {
    if x <= lo {
        0
    } else if x >= lo + w {
        w
    } else {
        x - lo
    }
}

/// Row-major order of cells.
pub open spec fn spec_before(a: (usize, usize), b: (usize, usize)) -> bool {
    a.0 < b.0 || (a.0 == b.0 && a.1 < b.1)
}

impl TileGrid {
    /// The ownership of each tile, by row and column.
    pub closed spec fn cells(&self) -> Seq<Seq<bool>> {
        self.visited@.map_values(|row: Vec<bool>| row@)
    }

    pub closed spec fn spec_num_rows(&self) -> nat {
        self.num_rows as nat
    }

    pub closed spec fn spec_num_cols(&self) -> nat {
        self.num_cols as nat
    }

    /// The grid has `num_rows` rows of `num_cols` tiles.
    pub closed spec fn wf(&self) -> bool {
        &&& self.visited@.len() == self.num_rows
        &&& forall|i: int| 0 <= i < self.num_rows ==> #[trigger] self.visited@[i]@.len() == self.num_cols
    }

    /// A grid of `num_rows` by `num_cols` tiles, none owned.
    pub fn new(num_rows: usize, num_cols: usize) -> (res: Self)
        ensures
            res.wf(),
            res.spec_num_rows() == num_rows,
            res.spec_num_cols() == num_cols,
            forall|i: int, j: int|
                0 <= i < num_rows && 0 <= j < num_cols ==> !#[trigger] res.cells()[i][j],
    {
        let mut visited: Vec<Vec<bool>> = Vec::new();
        let mut i: usize = 0;
        while i < num_rows
            invariant
                i <= num_rows,
                visited@.len() == i,
                forall|k: int| 0 <= k < i ==> #[trigger] visited@[k]@.len() == num_cols,
                forall|k: int, j: int| 0 <= k < i && 0 <= j < num_cols ==> !#[trigger] visited@[k]@[j],
            decreases num_rows - i,
        {
            let mut row: Vec<bool> = Vec::new();
            let mut j: usize = 0;
            while j < num_cols
                invariant
                    j <= num_cols,
                    row@.len() == j,
                    forall|k: int| 0 <= k < j ==> !#[trigger] row@[k],
                decreases num_cols - j,
            {
                row.push(false);
                j = j + 1;
            }
            visited.push(row);
            i = i + 1;
        }
        TileGrid { visited, num_rows, num_cols }
    }

    pub fn num_rows(&self) -> (res: usize)
        ensures
            res == self.spec_num_rows(),
    {
        self.num_rows
    }

    pub fn num_cols(&self) -> (res: usize)
        ensures
            res == self.spec_num_cols(),
    {
        self.num_cols
    }

    /// Whether the tile at `(row, col)` is owned.
    pub fn is_visited(&self, row: usize, col: usize) -> (res: bool)
        requires
            self.wf(),
            row < self.spec_num_rows(),
            col < self.spec_num_cols(),
        ensures
            res == self.cells()[row as int][col as int],
    {
        self.visited[row][col]
    }

    /// Sets whether the tile at `(row, col)` is owned.
    pub fn set_visited(&mut self, row: usize, col: usize, value: bool)
        requires
            old(self).wf(),
            row < old(self).spec_num_rows(),
            col < old(self).spec_num_cols(),
        ensures
            final(self).wf(),
            final(self).spec_num_rows() == old(self).spec_num_rows(),
            final(self).spec_num_cols() == old(self).spec_num_cols(),
            final(self).cells() == old(self).cells().update(
                row as int,
                old(self).cells()[row as int].update(col as int, value),
            ),
    {
        self.visited[row].set(col, value);
        proof {
            assert(self.cells() =~= old(self).cells().update(
                row as int,
                old(self).cells()[row as int].update(col as int, value),
            ));
        }
    }
}

impl TileGrid {
    /// Claims the spawn area, the square of half size `hs` around the spawn tile `(r, c)`:
    /// its inside becomes owned and its border, where the player starts drawing, unowned;
    /// the rest of the grid is left as it is. Returns the owned tiles of the inside, row by
    /// row, each once.
    pub fn claim_spawn_area(&mut self, r: usize, c: usize, hs: usize) -> (res: Vec<
        (usize, usize),
    >)
        requires
            old(self).wf(),
            hs <= r,
            hs <= c,
            r + hs < old(self).spec_num_rows(),
            c + hs < old(self).spec_num_cols(),
        ensures
            final(self).wf(),
            final(self).spec_num_rows() == old(self).spec_num_rows(),
            final(self).spec_num_cols() == old(self).spec_num_cols(),
            forall|i: int, j: int|
                0 <= i < old(self).spec_num_rows() && 0 <= j < old(self).spec_num_cols()
                    ==> #[trigger] final(self).cells()[i][j] == if spec_in_square(
                    i,
                    j,
                    r as int,
                    c as int,
                    hs as int,
                ) {
                    spec_in_interior(i, j, r as int, c as int, hs as int)
                } else {
                    old(self).cells()[i][j]
                },
            forall|k: int|
                0 <= k < res@.len() ==> spec_in_interior(
                    (#[trigger] res@[k]).0 as int,
                    res@[k].1 as int,
                    r as int,
                    c as int,
                    hs as int,
                ),
            forall|i: usize, j: usize|
                spec_in_interior(i as int, j as int, r as int, c as int, hs as int)
                    ==> #[trigger] res@.contains((i, j)),
            forall|a: int, b: int| 0 <= a < b < res@.len() ==> spec_before(res@[a], res@[b]),
            res@.len() == spec_interior_width(hs as int) * spec_interior_width(hs as int),
    {
        let ghost start = self.cells();
        let ghost w = spec_interior_width(hs as int);
        let ghost lo_row = r - hs + 1;
        let ghost lo_col = c - hs + 1;
        let ghost mut base: int = 0;
        let mut owned: Vec<(usize, usize)> = Vec::new();
        let mut row: usize = r - hs;
        while row <= r + hs
            invariant
                self.wf(),
                self.spec_num_rows() == old(self).spec_num_rows(),
                self.spec_num_cols() == old(self).spec_num_cols(),
                start == old(self).cells(),
                hs <= r,
                hs <= c,
                r + hs < self.spec_num_rows(),
                c + hs < self.spec_num_cols(),
                r - hs <= row <= r + hs + 1,
                forall|i: int, j: int|
                    0 <= i < self.spec_num_rows() && 0 <= j < self.spec_num_cols()
                        ==> #[trigger] self.cells()[i][j] == if spec_in_square(
                        i,
                        j,
                        r as int,
                        c as int,
                        hs as int,
                    ) && i < row {
                        spec_in_interior(i, j, r as int, c as int, hs as int)
                    } else {
                        start[i][j]
                    },
                forall|k: int|
                    0 <= k < owned@.len() ==> spec_in_interior(
                        (#[trigger] owned@[k]).0 as int,
                        owned@[k].1 as int,
                        r as int,
                        c as int,
                        hs as int,
                    ) && owned@[k].0 < row,
                forall|i: usize, j: usize|
                    spec_in_interior(i as int, j as int, r as int, c as int, hs as int) && i
                        < row ==> #[trigger] owned@.contains((i, j)),
                forall|a: int, b: int|
                    0 <= a < b < owned@.len() ==> spec_before(owned@[a], owned@[b]),
                w == spec_interior_width(hs as int),
                lo_row == r - hs + 1,
                lo_col == c - hs + 1,
                owned@.len() == base,
                base == spec_done(row as int, lo_row, w) * w,
            decreases r + hs + 1 - row,
        {
            let ghost row_inside = lo_row <= row < lo_row + w;
            let mut col: usize = c - hs;
            while col <= c + hs
                invariant
                    self.wf(),
                    self.spec_num_rows() == old(self).spec_num_rows(),
                    self.spec_num_cols() == old(self).spec_num_cols(),
                    hs <= r,
                    hs <= c,
                    r + hs < self.spec_num_rows(),
                    c + hs < self.spec_num_cols(),
                    r - hs <= row <= r + hs,
                    c - hs <= col <= c + hs + 1,
                    forall|i: int, j: int|
                        0 <= i < self.spec_num_rows() && 0 <= j < self.spec_num_cols()
                            ==> #[trigger] self.cells()[i][j] == if spec_in_square(
                            i,
                            j,
                            r as int,
                            c as int,
                            hs as int,
                        ) && (i < row || (i == row && j < col)) {
                            spec_in_interior(i, j, r as int, c as int, hs as int)
                        } else {
                            start[i][j]
                        },
                    forall|k: int|
                        0 <= k < owned@.len() ==> spec_in_interior(
                            (#[trigger] owned@[k]).0 as int,
                            owned@[k].1 as int,
                            r as int,
                            c as int,
                            hs as int,
                        ) && spec_before(owned@[k], (row, col)),
                    forall|i: usize, j: usize|
                        spec_in_interior(i as int, j as int, r as int, c as int, hs as int) && (i
                            < row || (i == row && j < col)) ==> #[trigger] owned@.contains(
                            (i, j),
                        ),
                    forall|a: int, b: int|
                        0 <= a < b < owned@.len() ==> spec_before(owned@[a], owned@[b]),
                    w == spec_interior_width(hs as int),
                    lo_row == r - hs + 1,
                    lo_col == c - hs + 1,
                    row_inside == (lo_row <= row < lo_row + w),
                    owned@.len() == base + if row_inside {
                        spec_done(col as int, lo_col, w)
                    } else {
                        0
                    },
                decreases c + hs + 1 - col,
            {
                let inside = row != r - hs && row != r + hs && col != c - hs && col != c + hs;
                self.set_visited(row, col, inside);
                if inside {
                    let ghost before = owned@;
                    owned.push((row, col));
                    proof {
                        assert forall|i: usize, j: usize|
                            spec_in_interior(i as int, j as int, r as int, c as int, hs as int)
                                && (i < row || (i == row && j < col + 1)) implies #[trigger] owned@.contains(
                            (i, j),
                        ) by {
                            if i == row && j == col {
                                assert(owned@[owned@.len() - 1] == (i, j));
                            } else {
                                assert(before.contains((i, j)));
                                let k = choose|k: int| 0 <= k < before.len() && before[k] == (i, j);
                                assert(owned@[k] == (i, j));
                            }
                        }
                    }
                }
                col = col + 1;
            }
            proof {
                let d = spec_done(row as int, lo_row, w);
                assert(spec_done(row + 1, lo_row, w) == d + if row_inside { 1int } else { 0 });
                assert((d + 1) * w == d * w + w) by (nonlinear_arith);
                base = base + if row_inside { w } else { 0 };
            }
            row = row + 1;
        }
        owned
    }

    /// The player loses the path being drawn: each tile of `path` becomes unowned again and
    /// the path is emptied.
    pub fn clear_path(&mut self, path: &mut VecDeque<(usize, usize)>)
        requires
            old(self).wf(),
            forall|k: int|
                0 <= k < old(path)@.len() ==> (#[trigger] old(path)@[k]).0 < old(
                    self,
                ).spec_num_rows() && old(path)@[k].1 < old(self).spec_num_cols(),
        ensures
            final(self).wf(),
            final(self).spec_num_rows() == old(self).spec_num_rows(),
            final(self).spec_num_cols() == old(self).spec_num_cols(),
            final(path)@.len() == 0,
            forall|i: int, j: int|
                0 <= i < old(self).spec_num_rows() && 0 <= j < old(self).spec_num_cols()
                    ==> #[trigger] final(self).cells()[i][j] == (old(self).cells()[i][j]
                    && !old(path)@.contains((i as usize, j as usize))),
    {
        let ghost start = self.cells();
        let ghost full = path@;
        while path.len() > 0
            invariant
                self.wf(),
                self.spec_num_rows() == old(self).spec_num_rows(),
                self.spec_num_cols() == old(self).spec_num_cols(),
                start == old(self).cells(),
                full == old(path)@,
                path@.len() <= full.len(),
                path@ == full.subrange(full.len() - path@.len(), full.len() as int),
                forall|k: int|
                    0 <= k < full.len() ==> (#[trigger] full[k]).0 < self.spec_num_rows()
                        && full[k].1 < self.spec_num_cols(),
                forall|i: int, j: int|
                    0 <= i < self.spec_num_rows() && 0 <= j < self.spec_num_cols()
                        ==> #[trigger] self.cells()[i][j] == (start[i][j] && !full.subrange(
                        0,
                        full.len() - path@.len(),
                    ).contains((i as usize, j as usize))),
            decreases path@.len(),
        {
            let ghost done = full.len() - path@.len();
            let (row, col) = path.pop_front().unwrap();
            assert(full[done] == (row, col));
            self.set_visited(row, col, false);
            proof {
                let prefix = full.subrange(0, done + 1);
                assert(prefix =~= full.subrange(0, done).push((row, col)));
                assert(path@ =~= full.subrange(full.len() - path@.len(), full.len() as int));
                assert forall|i: int, j: int|
                    0 <= i < self.spec_num_rows() && 0 <= j < self.spec_num_cols()
                        implies #[trigger] self.cells()[i][j] == (start[i][j] && !prefix.contains(
                        (i as usize, j as usize),
                    )) by {
                    if i == row && j == col {
                        assert(prefix[done] == (i as usize, j as usize));
                    } else {
                        if prefix.contains((i as usize, j as usize)) {
                            let k = choose|k: int| 0 <= k < prefix.len() && prefix[k] == (i as usize, j as usize);
                            assert(k != done);
                            assert(full.subrange(0, done)[k] == (i as usize, j as usize));
                        }
                        if full.subrange(0, done).contains((i as usize, j as usize)) {
                            let k = choose|k: int| 0 <= k < done && full.subrange(0, done)[k] == (i as usize, j as usize);
                            assert(prefix[k] == (i as usize, j as usize));
                        }
                    }
                }
            }
        }
        assert(full.subrange(0, full.len() as int) =~= full);
    }
}

} // verus!
