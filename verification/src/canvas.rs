//! The canvas buffer: a dense 2D grid of display cells with clear and
//! wrap-around point writes. The grid is toroidal: a write at x == width
//! lands in column 0, and negative coordinates wrap to the high end.

use vstd::prelude::*;

verus! {

use vstd::arithmetic::div_mod::lemma_mod_division_less_than_divisor;

/// One display cell: either the background sentinel or a solid glyph
/// carrying an RGB colour.
#[derive(Clone, Copy, Debug, PartialEq, Eq, Structural)]
pub enum Cell {
    Background,
    Solid { r: u8, g: u8, b: u8 },
}

/// Wrap-around addressing: a coordinate resolves to its Euclidean
/// remainder modulo the axis length, which lies in `[0, m)` for `m > 0`.
pub open spec fn wrap(v: int, m: int) -> int {
    v % m
}

/// Row-major index of the cell that the point `(x, y)` resolves to on a
/// `w`-by-`h` buffer.
pub open spec fn buf_index(w: int, h: int, x: int, y: int) -> int {
    wrap(y, h) * w + wrap(x, w)
}

/// The all-background buffer of a `w`-by-`h` canvas.
pub open spec fn cleared(w: int, h: int) -> Seq<Cell> {
    Seq::new((w * h) as nat, |i: int| Cell::Background)
}

/// The buffer after writing `cell` at point `(x, y)` with wrap-around.
pub open spec fn write_at(buf: Seq<Cell>, w: int, h: int, x: int, y: int, cell: Cell) -> Seq<Cell> {
    buf.update(buf_index(w, h, x, y), cell)
}

/// A fixed-size 2D grid of display cells, stored row-major.
pub struct Canvas {
    pub width: usize,
    pub height: usize,
    pub cells: Vec<Cell>,
}

/// Euclidean remainder of a signed coordinate by an axis length.
fn wrap_coord(v: i64, m: usize) -> (r: usize)
    requires
        0 < m,
        m <= 0x7fff_ffff,
    ensures
        r < m,
        r as int == wrap(v as int, m as int),
{
    let mi: i64 = m as i64;
    proof {
        lemma_mod_division_less_than_divisor(v as int, mi as int);
    }
    match v.checked_rem_euclid(mi) {
        Some(r) => r as usize,
        None => unreached(),
    }
}

impl Canvas {
    /// Well-formed: positive dimensions small enough for coordinate
    /// arithmetic, and a cell for every grid point.
    pub open spec fn wf(self) -> bool {
        &&& 0 < self.width
        &&& 0 < self.height
        &&& self.width <= 0x7fff_ffff
        &&& self.height <= 0x7fff_ffff
        &&& self.cells.len() == self.width * self.height
    }

    /// The buffer contents, row-major.
    pub open spec fn grid(self) -> Seq<Cell> {
        self.cells@
    }

    /// A fresh canvas with every cell set to the background sentinel.
    pub fn new(width: usize, height: usize) -> (c: Canvas)
        requires
            0 < width,
            0 < height,
            width <= 0x7fff_ffff,
            height <= 0x7fff_ffff,
            width * height <= usize::MAX,
        ensures
            c.wf(),
            c.width == width,
            c.height == height,
            c.grid() == cleared(width as int, height as int),
    {
        let n: usize = width * height;
        let mut cells: Vec<Cell> = Vec::new();
        let mut i: usize = 0;
        while i < n
            invariant
                i <= n,
                cells.len() == i,
                forall|j: int| 0 <= j < i ==> cells@[j] == Cell::Background,
            decreases n - i,
        {
            cells.push(Cell::Background);
            i = i + 1;
        }
        let c = Canvas { width, height, cells };
        proof {
            assert(c.grid() =~= cleared(width as int, height as int));
        }
        c
    }

    /// Overwrites every cell with the background sentinel.
    pub fn clear(&mut self)
        requires
            old(self).wf(),
        ensures
            final(self).wf(),
            final(self).width == old(self).width,
            final(self).height == old(self).height,
            final(self).grid() == cleared(old(self).width as int, old(self).height as int),
    {
        let n: usize = self.cells.len();
        let mut i: usize = 0;
        while i < n
            invariant
                i <= n,
                n == self.cells.len(),
                self.width == old(self).width,
                self.height == old(self).height,
                old(self).wf(),
                forall|j: int| 0 <= j < i ==> self.cells@[j] == Cell::Background,
            decreases n - i,
        {
            self.cells[i] = Cell::Background;
            i = i + 1;
        }
        proof {
            assert(self.grid() =~= cleared(old(self).width as int, old(self).height as int));
        }
    }

    /// Writes `cell` at `(x, y)` with wrap-around addressing. Never
    /// fails: any signed coordinate resolves to a cell of the grid.
    pub fn write(&mut self, x: i64, y: i64, cell: Cell)
        requires
            old(self).wf(),
        ensures
            final(self).wf(),
            final(self).width == old(self).width,
            final(self).height == old(self).height,
            final(self).grid() == write_at(
                old(self).grid(),
                old(self).width as int,
                old(self).height as int,
                x as int,
                y as int,
                cell,
            ),
    {
        let col: usize = wrap_coord(x, self.width);
        let row: usize = wrap_coord(y, self.height);
        proof {
            assert(row * self.width + col < self.width * self.height) by (nonlinear_arith)
                requires
                    row < self.height,
                    col < self.width,
                    0 < self.width,
            ;
        }
        let idx: usize = row * self.width + col;
        self.cells[idx] = cell;
    }

    /// Reads the cell at column `col`, row `row` of the buffer.
    pub fn get(&self, col: usize, row: usize) -> (c: Cell)
        requires
            self.wf(),
            col < self.width,
            row < self.height,
        ensures
            c == self.grid()[row * self.width + col],
    {
        proof {
            assert(row * self.width + col < self.width * self.height) by (nonlinear_arith)
                requires
                    row < self.height,
                    col < self.width,
                    0 < self.width,
            ;
        }
        let idx: usize = row * self.width + col;
        self.cells[idx]
    }
}

} // verus!
