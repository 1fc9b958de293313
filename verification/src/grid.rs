//! The row-major layout that samples and pixels share.

use vstd::prelude::*;
use vstd::arithmetic::div_mod::{lemma_fundamental_div_mod, lemma_fundamental_div_mod_converse};

verus! {

/// The offset of the cell in column `w` and row `h` of a grid `width` wide.
pub open spec fn offset_of(w: int, h: int, width: int) -> int {
    h * width + w
}

/// Every cell of a grid has an offset below the number of cells, and the
/// offset gives the column and the row back.
pub proof fn lemma_offset_in_grid(w: int, h: int, width: int, height: int)
    requires
        0 <= w < width,
        0 <= h < height,
    ensures
        0 <= offset_of(w, h, width) < width * height,
        offset_of(w, h, width) % width == w,
        offset_of(w, h, width) / width == h,
{
    assert(h * width + width <= height * width) by (nonlinear_arith)
        requires
            0 <= h < height,
            0 < width,
    ;
    assert(0 <= h * width) by (nonlinear_arith)
        requires
            0 <= h,
            0 < width,
    ;
    assert(height * width == width * height) by (nonlinear_arith);
    lemma_fundamental_div_mod_converse(offset_of(w, h, width), width, h, w);
}

/// Every offset below the number of cells is the offset of exactly the cell
/// in column `k % width` and row `k / width`.
pub proof fn lemma_cell_of_offset(k: int, width: int, height: int)
    requires
        0 <= k < width * height,
        0 < width,
    ensures
        0 <= k % width < width,
        0 <= k / width < height,
        offset_of(k % width, k / width, width) == k,
{
    lemma_fundamental_div_mod(k, width);
    let q = k / width;
    let r = k % width;
    assert(width * q == q * width) by (nonlinear_arith);
    assert(q < height) by (nonlinear_arith)
        requires
            q * width + r < width * height,
            0 <= r,
            0 < width,
    ;
    assert(q >= 0) by (nonlinear_arith)
        requires
            q * width + r >= 0,
            r < width,
            0 < width,
    ;
}

/// No two cells of a grid share an offset.
pub proof fn lemma_offsets_differ(w1: int, h1: int, w2: int, h2: int, width: int)
    requires
        0 <= w1 < width,
        0 <= w2 < width,
        0 <= h1,
        0 <= h2,
        offset_of(w1, h1, width) == offset_of(w2, h2, width),
    ensures
        w1 == w2,
        h1 == h2,
{
    lemma_offset_in_grid(w1, h1, width, h1 + 1);
    lemma_offset_in_grid(w2, h2, width, h2 + 1);
}

/// The number of cells of a grid, `width * height`; `None` exactly when that
/// is more than `usize` holds.
pub fn cell_count(width: u32, height: u32) -> (out: Option<usize>)
    ensures
        width * height <= usize::MAX ==> out == Some((width * height) as usize),
        width * height > usize::MAX ==> out.is_none(),
{
    assert(width * height <= u64::MAX) by (nonlinear_arith)
        requires
            width <= u32::MAX,
            height <= u32::MAX,
    ;
    let cells: u64 = (width as u64) * (height as u64);
    if cells > usize::MAX as u64 {
        None
    } else {
        Some(cells as usize)
    }
}

/// The offset of column `w`, row `h`.
pub fn cell_offset(w: u32, h: u32, width: u32, height: u32) -> (out: usize)
    requires
        w < width,
        h < height,
        width * height <= usize::MAX,
    ensures
        out == offset_of(w as int, h as int, width as int),
        out < width * height,
{
    proof {
        lemma_offset_in_grid(w as int, h as int, width as int, height as int);
        assert(0 <= (h as int) * (width as int) <= offset_of(w as int, h as int, width as int))
            by (nonlinear_arith)
            requires
                0 <= w,
                0 <= h,
                0 < width,
                offset_of(w as int, h as int, width as int) == h * width + w,
        ;
    }
    (h as usize) * (width as usize) + (w as usize)
}

/// The column and the row of the cell at `offset`.
pub fn cell_at(offset: usize, width: u32, height: u32) -> (out: (u32, u32))
    requires
        offset < width * height,
    ensures
        out.0 < width,
        out.1 < height,
        out.0 == offset % (width as usize),
        out.1 == offset / (width as usize),
        offset_of(out.0 as int, out.1 as int, width as int) == offset,
{
    assert(width > 0) by (nonlinear_arith)
        requires
            0 <= offset < width * height,
    ;
    proof {
        lemma_cell_of_offset(offset as int, width as int, height as int);
    }
    let w: usize = offset % (width as usize);
    let h: usize = offset / (width as usize);
    (w as u32, h as u32)
}

/// The samples of one frame: for each pixel the real and the imaginary part
/// of the point that it shows, in two arrays of the same row-major layout.
pub struct SampleGrid<T> {
    pub width: u32,
    pub height: u32,
    pub xs: Vec<T>,
    pub ys: Vec<T>,
}

/// The real parts of a grid whose columns sit at `columns`, for `height` rows.
pub open spec fn laid_out_xs<T>(columns: Seq<T>, height: nat) -> Seq<T> {
    Seq::new(columns.len() * height, |k: int| columns[k % (columns.len() as int)])
}

/// The imaginary parts of a grid whose rows sit at `rows`, for `width` columns.
pub open spec fn laid_out_ys<T>(rows: Seq<T>, width: nat) -> Seq<T> {
    Seq::new(width * rows.len(), |k: int| rows[k / (width as int)])
}

impl<T: Copy> SampleGrid<T> {
    /// Both arrays hold one entry for each pixel.
    pub open spec fn wf(self) -> bool {
        &&& self.xs@.len() == self.width * self.height
        &&& self.ys@.len() == self.width * self.height
    }

    /// The grid holds, for every pixel, the sample of its column in `xs`
    /// and that of its row in `ys`.
    pub open spec fn lays_out(self, columns: Seq<T>, rows: Seq<T>) -> bool {
        &&& self.width == columns.len()
        &&& self.height == rows.len()
        &&& self.xs@ == laid_out_xs(columns, rows.len())
        &&& self.ys@ == laid_out_ys(rows, columns.len())
    }

    /// Lays the samples of the columns and of the rows out over the whole
    /// grid. `None` exactly when a side is longer than `u32` holds or the
    /// grid has more cells than `usize` holds.
    pub fn from_axes(columns: &Vec<T>, rows: &Vec<T>) -> (out: Option<SampleGrid<T>>)
        ensures
            out.is_some() <==> columns@.len() <= u32::MAX && rows@.len() <= u32::MAX
                && columns@.len() * rows@.len() <= usize::MAX,
            out matches Some(grid) ==> grid.wf() && grid.lays_out(columns@, rows@),
    {
        if columns.len() > u32::MAX as usize || rows.len() > u32::MAX as usize {
            return None;
        }
        let width: u32 = columns.len() as u32;
        let height: u32 = rows.len() as u32;
        let cells: usize = match cell_count(width, height) {
            Some(n) => n,
            None => {
                return None;
            },
        };
        let mut xs: Vec<T> = Vec::with_capacity(cells);
        let mut ys: Vec<T> = Vec::with_capacity(cells);
        let mut h: usize = 0;
        while h < rows.len()
            invariant
                h <= rows@.len(),
                width == columns@.len(),
                height == rows@.len(),
                cells == width * height,
                xs@.len() == h * width,
                ys@.len() == h * width,
                forall|k: int| 0 <= k < xs@.len() ==> xs@[k] == columns@[k % (width as int)],
                forall|k: int| 0 <= k < ys@.len() ==> ys@[k] == rows@[k / (width as int)],
            decreases rows@.len() - h,
        {
            let mut w: usize = 0;
            while w < columns.len()
                invariant
                    h < rows@.len(),
                    w <= columns@.len(),
                    width == columns@.len(),
                    height == rows@.len(),
                    xs@.len() == h * width + w,
                    ys@.len() == h * width + w,
                    forall|k: int| 0 <= k < xs@.len() ==> xs@[k] == columns@[k % (width as int)],
                    forall|k: int| 0 <= k < ys@.len() ==> ys@[k] == rows@[k / (width as int)],
                decreases columns@.len() - w,
            {
                proof {
                    lemma_offset_in_grid(w as int, h as int, width as int, height as int);
                }
                xs.push(columns[w]);
                ys.push(rows[h]);
                w += 1;
            }
            assert(h * width + width == (h + 1) * width) by (nonlinear_arith);
            h += 1;
        }
        proof {
            assert(height * width == width * height) by (nonlinear_arith);
            assert(xs@ =~= laid_out_xs(columns@, rows@.len()));
            assert(ys@ =~= laid_out_ys(rows@, columns@.len()));
        }
        Some(SampleGrid { width, height, xs, ys })
    }

    /// The sample of the pixel in column `w`, row `h`: its real and its
    /// imaginary part.
    pub fn sample(&self, w: u32, h: u32) -> (out: (T, T))
        requires
            self.wf(),
            w < self.width,
            h < self.height,
        ensures
            out.0 == self.xs@[offset_of(w as int, h as int, self.width as int)],
            out.1 == self.ys@[offset_of(w as int, h as int, self.width as int)],
    {
        assert(self.xs@.len() == self.xs.len());
        let offset: usize = cell_offset(w, h, self.width, self.height);
        (self.xs[offset], self.ys[offset])
    }
}

/// In a grid laid out from its axes, the pixel in column `w`, row `h` has
/// the sample of column `w` and of row `h`: nothing is moved or shared. The
/// first pixel has the first sample of each axis, the last pixel the last.
pub proof fn lemma_layout_by_cell<T: Copy>(
    grid: SampleGrid<T>,
    columns: Seq<T>,
    rows: Seq<T>,
    w: int,
    h: int,
)
    requires
        grid.lays_out(columns, rows),
        0 <= w < columns.len(),
        0 <= h < rows.len(),
    ensures
        0 <= offset_of(w, h, grid.width as int) < grid.xs@.len(),
        grid.xs@.len() == columns.len() * rows.len(),
        grid.ys@.len() == columns.len() * rows.len(),
        grid.xs@[offset_of(w, h, grid.width as int)] == columns[w],
        grid.ys@[offset_of(w, h, grid.width as int)] == rows[h],
        offset_of(0, 0, grid.width as int) == 0,
        offset_of(columns.len() - 1, rows.len() - 1, grid.width as int) == grid.xs@.len() - 1,
{
    lemma_offset_in_grid(w, h, columns.len() as int, rows.len() as int);
    assert(offset_of(columns.len() - 1, rows.len() - 1, columns.len() as int) == columns.len()
        * rows.len() - 1) by (nonlinear_arith);
}

/// A grid keeps the order of its axes: whatever relation holds between the
/// samples of two neighbouring columns holds between two neighbouring pixels
/// of every row, and the same for rows and the pixels of every column.
pub proof fn lemma_layout_keeps_order<T: Copy>(
    grid: SampleGrid<T>,
    columns: Seq<T>,
    rows: Seq<T>,
    before: spec_fn(T, T) -> bool,
    w: int,
    h: int,
)
    requires
        grid.lays_out(columns, rows),
        0 <= w < columns.len(),
        0 <= h < rows.len(),
    ensures
        w + 1 < columns.len() && before(columns[w], columns[w + 1]) ==> before(
            grid.xs@[offset_of(w, h, grid.width as int)],
            grid.xs@[offset_of(w + 1, h, grid.width as int)],
        ),
        h + 1 < rows.len() && before(rows[h], rows[h + 1]) ==> before(
            grid.ys@[offset_of(w, h, grid.width as int)],
            grid.ys@[offset_of(w, h + 1, grid.width as int)],
        ),
{
    lemma_layout_by_cell(grid, columns, rows, w, h);
    if w + 1 < columns.len() {
        lemma_layout_by_cell(grid, columns, rows, w + 1, h);
    }
    if h + 1 < rows.len() {
        lemma_layout_by_cell(grid, columns, rows, w, h + 1);
    }
}

/// Laying the same axes out twice gives the same grid.
pub proof fn lemma_layout_is_a_function<T: Copy>(
    first: SampleGrid<T>,
    second: SampleGrid<T>,
    columns: Seq<T>,
    rows: Seq<T>,
)
    requires
        first.lays_out(columns, rows),
        second.lays_out(columns, rows),
    ensures
        first.width == second.width,
        first.height == second.height,
        first.xs@ == second.xs@,
        first.ys@ == second.ys@,
{
}

} // verus!
