//! A three-axis matrix of small integers: rows, columns and channels.
use vstd::prelude::*;

verus! {

/// A (rows, cols, chans) matrix of `i8`, stored row by row.
#[derive(Debug, Clone, PartialEq, Eq)]
pub struct BitMatrix {
    pub rows: usize,
    pub cols: usize,
    pub chans: usize,
    pub cells: Vec<Vec<Vec<i8>>>,
}

impl BitMatrix {
    pub open spec fn wf(&self) -> bool {
        &&& self.cells@.len() == self.rows
        &&& forall|i: int| 0 <= i < self.rows ==> (#[trigger] self.cells@[i])@.len() == self.cols
        &&& forall|i: int, j: int|
            0 <= i < self.rows && 0 <= j < self.cols ==> (#[trigger] self.cells@[i]@[j])@.len()
                == self.chans
    }

    /// The entry at row `i`, column `j`, channel `k`.
    pub open spec fn at(&self, i: int, j: int, k: int) -> i8 {
        self.cells@[i]@[j]@[k]
    }

    /// A matrix of the given shape, all zero.
    pub fn zeros(rows: usize, cols: usize, chans: usize) -> (r: BitMatrix)
        ensures
            r.wf(),
            r.rows == rows,
            r.cols == cols,
            r.chans == chans,
            forall|i: int, j: int, k: int|
                0 <= i < rows && 0 <= j < cols && 0 <= k < chans ==> #[trigger] r.at(i, j, k)
                    == 0,
    {
        let mut cells: Vec<Vec<Vec<i8>>> = Vec::new();
        let mut i: usize = 0;
        while i < rows
            invariant
                0 <= i <= rows,
                cells@.len() == i,
                forall|a: int| 0 <= a < i ==> (#[trigger] cells@[a])@.len() == cols,
                forall|a: int, b: int|
                    0 <= a < i && 0 <= b < cols ==> (#[trigger] cells@[a]@[b])@.len() == chans,
                forall|a: int, b: int, c: int|
                    0 <= a < i && 0 <= b < cols && 0 <= c < chans ==> #[trigger] cells@[a]@[b]@[c]
                        == 0,
            decreases rows - i,
        {
            let mut row: Vec<Vec<i8>> = Vec::new();
            let mut j: usize = 0;
            while j < cols
                invariant
                    0 <= j <= cols,
                    row@.len() == j,
                    forall|b: int| 0 <= b < j ==> (#[trigger] row@[b])@.len() == chans,
                    forall|b: int, c: int|
                        0 <= b < j && 0 <= c < chans ==> #[trigger] row@[b]@[c] == 0,
                decreases cols - j,
            {
                let mut cell: Vec<i8> = Vec::new();
                let mut k: usize = 0;
                while k < chans
                    invariant
                        0 <= k <= chans,
                        cell@.len() == k,
                        forall|c: int| 0 <= c < k ==> #[trigger] cell@[c] == 0,
                    decreases chans - k,
                {
                    cell.push(0);
                    k = k + 1;
                }
                row.push(cell);
                j = j + 1;
            }
            cells.push(row);
            i = i + 1;
        }
        BitMatrix { rows, cols, chans, cells }
    }

    /// The shape (rows, cols, chans).
    pub fn dim(&self) -> (r: (usize, usize, usize))
        ensures
            r == (self.rows, self.cols, self.chans),
    {
        (self.rows, self.cols, self.chans)
    }

    /// The entry at row `i`, column `j`, channel `k`.
    pub fn get(&self, i: usize, j: usize, k: usize) -> (r: i8)
        requires
            self.wf(),
            i < self.rows,
            j < self.cols,
            k < self.chans,
        ensures
            r == self.at(i as int, j as int, k as int),
    {
        self.cells[i][j][k]
    }

    /// Writes `v` at row `i`, column `j`, channel `k`.
    pub fn set(&mut self, i: usize, j: usize, k: usize, v: i8)
        requires
            old(self).wf(),
            i < old(self).rows,
            j < old(self).cols,
            k < old(self).chans,
        ensures
            final(self).wf(),
            final(self).rows == old(self).rows,
            final(self).cols == old(self).cols,
            final(self).chans == old(self).chans,
            forall|a: int, b: int, c: int|
                0 <= a < old(self).rows && 0 <= b < old(self).cols && 0 <= c < old(self).chans
                    ==> #[trigger] final(self).at(a, b, c) == if a == i && b == j && c == k {
                    v
                } else {
                    old(self).at(a, b, c)
                },
    {
        let mut row: Vec<Vec<i8>> = Vec::new();
        let mut b: usize = 0;
        while b < self.cols
            invariant
                self.wf(),
                i < self.rows,
                0 <= b <= self.cols,
                row@.len() == b,
                forall|t: int| 0 <= t < b ==> (#[trigger] row@[t])@.len() == self.chans,
                forall|t: int, c: int|
                    0 <= t < b && 0 <= c < self.chans ==> #[trigger] row@[t]@[c] == if t == j
                        && c == k {
                        v
                    } else {
                        self.at(i as int, t, c)
                    },
            decreases self.cols - b,
        {
            let mut cell: Vec<i8> = Vec::new();
            let mut c: usize = 0;
            while c < self.chans
                invariant
                    self.wf(),
                    i < self.rows,
                    b < self.cols,
                    0 <= c <= self.chans,
                    cell@.len() == c,
                    forall|t: int|
                        0 <= t < c ==> #[trigger] cell@[t] == if b == j && t == k {
                            v
                        } else {
                            self.at(i as int, b as int, t)
                        },
                decreases self.chans - c,
            {
                if b == j && c == k {
                    cell.push(v);
                } else {
                    cell.push(self.cells[i][b][c]);
                }
                c = c + 1;
            }
            row.push(cell);
            b = b + 1;
        }
        self.cells.set(i, row);
    }

    /// The sub-matrix of `h` rows and `w` columns whose top-left entry is at (`r0`, `c0`),
    /// with every channel.
    pub fn window(&self, r0: usize, c0: usize, h: usize, w: usize) -> (r: BitMatrix)
        requires
            self.wf(),
            r0 <= self.rows,
            h <= self.rows - r0,
            c0 <= self.cols,
            w <= self.cols - c0,
        ensures
            r.wf(),
            r.rows == h,
            r.cols == w,
            r.chans == self.chans,
            forall|i: int, j: int, k: int|
                0 <= i < h && 0 <= j < w && 0 <= k < self.chans ==> #[trigger] r.at(i, j, k)
                    == self.at(r0 + i, c0 + j, k),
    {
        let mut cells: Vec<Vec<Vec<i8>>> = Vec::new();
        let mut i: usize = 0;
        while i < h
            invariant
                self.wf(),
                r0 + h <= self.rows,
                c0 + w <= self.cols,
                0 <= i <= h,
                cells@.len() == i,
                forall|a: int| 0 <= a < i ==> (#[trigger] cells@[a])@.len() == w,
                forall|a: int, b: int|
                    0 <= a < i && 0 <= b < w ==> (#[trigger] cells@[a]@[b])@.len() == self.chans,
                forall|a: int, b: int, c: int|
                    0 <= a < i && 0 <= b < w && 0 <= c < self.chans ==> #[trigger] cells@[a]@[b]@[c]
                        == self.at(r0 + a, c0 + b, c),
            decreases h - i,
        {
            let mut row: Vec<Vec<i8>> = Vec::new();
            let mut j: usize = 0;
            while j < w
                invariant
                    self.wf(),
                    r0 + h <= self.rows,
                    c0 + w <= self.cols,
                    i < h,
                    0 <= j <= w,
                    row@.len() == j,
                    forall|b: int| 0 <= b < j ==> (#[trigger] row@[b])@.len() == self.chans,
                    forall|b: int, c: int|
                        0 <= b < j && 0 <= c < self.chans ==> #[trigger] row@[b]@[c] == self.at(
                            r0 + i,
                            c0 + b,
                            c,
                        ),
                decreases w - j,
            {
                let mut cell: Vec<i8> = Vec::new();
                let mut k: usize = 0;
                while k < self.chans
                    invariant
                        self.wf(),
                        r0 + h <= self.rows,
                        c0 + w <= self.cols,
                        i < h,
                        j < w,
                        0 <= k <= self.chans,
                        cell@.len() == k,
                        forall|c: int|
                            0 <= c < k ==> #[trigger] cell@[c] == self.at(
                                r0 + i,
                                c0 + j,
                                c,
                            ),
                    decreases self.chans - k,
                {
                    cell.push(self.cells[r0 + i][c0 + j][k]);
                    k = k + 1;
                }
                row.push(cell);
                j = j + 1;
            }
            cells.push(row);
            i = i + 1;
        }
        BitMatrix { rows: h, cols: w, chans: self.chans, cells }
    }
}

} // verus!
