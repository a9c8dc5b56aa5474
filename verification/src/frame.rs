//! Animation frames and sprite-sheet splitting.
//!
//! A `Frame` is one still image of a sprite sheet: a resource name, the
//! sub-rectangle of that texture, and a local pivot.  `split_region` tiles
//! a rectangle into a `cols x rows` grid of equal cells in row-major
//! order; `Frame::split` builds one frame per cell.

use vstd::prelude::*;
use crate::geometry::{Rect, Size, Vector};
use crate::rational::{
    add_fits, div_fits, frac_add, frac_div, frac_mul, mul_fits, Frac, Rat,
};

verus! {

/// One still image of a sprite sheet.
#[derive(Clone, Debug)]
pub struct Frame {
    /// The name under which the texture is registered.
    pub res_name: String,
    /// The sub-rectangle of the texture, in texture pixels.
    pub region: Rect,
    /// The local pivot used when the frame is placed.
    pub origin: Vector,
}

impl Frame {
    pub fn new(res_name: String, region: Rect, origin: Vector) -> (f: Frame)
        ensures
            f.res_name@ == res_name@,
            f.region == region,
            f.origin == origin,
    {
        Frame { res_name, region, origin }
    }

    pub fn res_name(&self) -> (r: &str)
        ensures
            r@ == self.res_name@,
    {
        self.res_name.as_str()
    }

    pub fn set_res_name(&mut self, res_name: String)
        ensures
            final(self).res_name@ == res_name@,
            final(self).region == old(self).region,
            final(self).origin == old(self).origin,
    {
        self.res_name = res_name;
    }

    pub fn region(&self) -> (r: Rect)
        ensures
            r == self.region,
    {
        self.region
    }

    pub fn set_region(&mut self, region: Rect)
        ensures
            final(self).region == region,
            final(self).res_name@ == old(self).res_name@,
            final(self).origin == old(self).origin,
    {
        self.region = region;
    }

    pub fn origin(&self) -> (r: Vector)
        ensures
            r == self.origin,
    {
        self.origin
    }

    pub fn set_origin(&mut self, origin: Vector)
        ensures
            final(self).origin == origin,
            final(self).res_name@ == old(self).res_name@,
            final(self).region == old(self).region,
    {
        self.origin = origin;
    }

    /// Tiles `region` into `cols x rows` equal cells, row-major, and makes
    /// one frame per cell, all with the same resource name and origin.
    pub fn split(res_name: &str, region: Rect, cols: usize, rows: usize, origin: Vector) -> (r:
        Vec<Frame>)
        requires
            1 <= cols,
            1 <= rows,
            rows * cols <= usize::MAX,
            region.wf(),
            split_fits(region, cols as int, rows as int),
        ensures
            r@.len() == rows * cols,
            forall|row: int, col: int|
                0 <= row < rows && 0 <= col < cols ==> {
                    let f = #[trigger] r@[row * (cols as int) + col];
                    &&& f.res_name@ == res_name@
                    &&& f.origin == origin
                    &&& f.region.x@ == cell_x(region, cols as int, col)
                    &&& f.region.y@ == cell_y(region, rows as int, row)
                    &&& f.region.width@ == cell_width(region, cols as int)
                    &&& f.region.height@ == cell_height(region, rows as int)
                },
    {
        let cells = split_region(region, cols, rows);
        let mut sheet: Vec<Frame> = Vec::new();
        let mut i: usize = 0;
        while i < cells.len()
            invariant
                cells@.len() == rows * cols,
                i <= cells@.len(),
                sheet@.len() == i,
                forall|j: int|
                    0 <= j < i ==> #[trigger] sheet@[j].region == cells@[j]
                        && sheet@[j].res_name@ == res_name@ && sheet@[j].origin == origin,
            decreases cells@.len() - i,
        {
            sheet.push(Frame { res_name: res_name.to_owned(), region: cells[i], origin });
            i = i + 1;
        }
        proof {
            assert forall|row: int, col: int| 0 <= row < rows && 0 <= col < cols implies {
                let f = #[trigger] sheet@[row * (cols as int) + col];
                &&& f.res_name@ == res_name@
                &&& f.origin == origin
                &&& f.region.x@ == cell_x(region, cols as int, col)
                &&& f.region.y@ == cell_y(region, rows as int, row)
                &&& f.region.width@ == cell_width(region, cols as int)
                &&& f.region.height@ == cell_height(region, rows as int)
            } by {
                assert(0 <= row * (cols as int) + col < (rows as int) * (cols as int))
                    by (nonlinear_arith)
                    requires
                        0 <= row < rows as int,
                        0 <= col < cols as int,
                ;
                let j = row * (cols as int) + col;
                assert(sheet@[j].region == cells@[j]);
                assert(sheet@[j].res_name@ == res_name@);
                assert(sheet@[j].origin == origin);
            }
        }
        sheet
    }
}

/// The x position of grid column `col` when a rectangle is split into
/// `cols` equal columns.
pub open spec fn cell_x(region: Rect, cols: int, col: int) -> Frac {
    frac_add(region.x@, frac_mul((col, 1int), cell_width(region, cols)))
}

/// The y position of grid row `row` when a rectangle is split into `rows`
/// equal rows.
pub open spec fn cell_y(region: Rect, rows: int, row: int) -> Frac {
    frac_add(region.y@, frac_mul((row, 1int), cell_height(region, rows)))
}

pub open spec fn cell_width(region: Rect, cols: int) -> Frac {
    frac_div(region.width@, (cols, 1int))
}

pub open spec fn cell_height(region: Rect, rows: int) -> Frac {
    frac_div(region.height@, (rows, 1int))
}

/// The products formed while splitting `region` into a `cols x rows` grid
/// all fit in `i128`.
pub open spec fn split_fits(region: Rect, cols: int, rows: int) -> bool {
    &&& div_fits(region.width@, (cols, 1int))
    &&& div_fits(region.height@, (rows, 1int))
    &&& forall|col: int|
        0 <= col < cols ==> #[trigger] mul_fits((col, 1int), cell_width(region, cols)) && add_fits(
            region.x@,
            frac_mul((col, 1int), cell_width(region, cols)),
        )
    &&& forall|row: int|
        0 <= row < rows ==> #[trigger] mul_fits((row, 1int), cell_height(region, rows))
            && add_fits(region.y@, frac_mul((row, 1int), cell_height(region, rows)))
}

/// Each produced cell rectangle, by its row-major index.
spec fn cell_ok(region: Rect, cols: int, rows: int, j: int, c: Rect) -> bool {
    &&& c.x@ == cell_x(region, cols, j % cols)
    &&& c.y@ == cell_y(region, rows, j / cols)
    &&& c.width@ == cell_width(region, cols)
    &&& c.height@ == cell_height(region, rows)
    &&& c.wf()
}

/// Tiles `region` into `cols x rows` equal cells, row-major.
pub fn split_region(region: Rect, cols: usize, rows: usize) -> (r: Vec<Rect>)
    requires
        1 <= cols,
        1 <= rows,
        rows * cols <= usize::MAX,
        region.wf(),
        split_fits(region, cols as int, rows as int),
    ensures
        r@.len() == rows * cols,
        forall|row: int, col: int|
            0 <= row < rows && 0 <= col < cols ==> {
                let c = #[trigger] r@[row * (cols as int) + col];
                &&& c.x@ == cell_x(region, cols as int, col)
                &&& c.y@ == cell_y(region, rows as int, row)
                &&& c.width@ == cell_width(region, cols as int)
                &&& c.height@ == cell_height(region, rows as int)
            },
        forall|c: Rect| r@.contains(c) ==> c.wf(),
{
    let cell_w = region.width.div(Rat::of_int(cols as i128));
    let cell_h = region.height.div(Rat::of_int(rows as i128));
    let mut cells: Vec<Rect> = Vec::new();
    let mut row: usize = 0;
    while row < rows
        invariant
            row <= rows,
            1 <= cols,
            1 <= rows,
            rows * cols <= usize::MAX,
            region.wf(),
            split_fits(region, cols as int, rows as int),
            cell_w@ == cell_width(region, cols as int),
            cell_h@ == cell_height(region, rows as int),
            cell_w.wf(),
            cell_h.wf(),
            cells@.len() == row * cols,
            forall|j: int|
                0 <= j < cells@.len() ==> cell_ok(
                    region,
                    cols as int,
                    rows as int,
                    j,
                    #[trigger] cells@[j],
                ),
        decreases rows - row,
    {
        proof {
            assert(mul_fits(((row as int), 1int), cell_height(region, rows as int)));
        }
        let y = region.y.add(Rat::of_int(row as i128).mul(cell_h));
        let mut col: usize = 0;
        while col < cols
            invariant
                col <= cols,
                row < rows,
                1 <= cols,
                1 <= rows,
                rows * cols <= usize::MAX,
                region.wf(),
                split_fits(region, cols as int, rows as int),
                cell_w@ == cell_width(region, cols as int),
                cell_h@ == cell_height(region, rows as int),
                cell_w.wf(),
                cell_h.wf(),
                y@ == cell_y(region, rows as int, row as int),
                y.wf(),
                cells@.len() == row * cols + col,
                forall|j: int|
                    0 <= j < cells@.len() ==> cell_ok(
                        region,
                        cols as int,
                        rows as int,
                        j,
                        #[trigger] cells@[j],
                    ),
            decreases cols - col,
        {
            proof {
                assert(mul_fits(((col as int), 1int), cell_width(region, cols as int)));
                assert((row as int) * (cols as int) + (col as int) < (rows as int) * (
                cols as int)) by (nonlinear_arith)
                    requires
                        0 <= (row as int) < (rows as int),
                        0 <= (col as int) < (cols as int),
                ;
            }
            let x = region.x.add(Rat::of_int(col as i128).mul(cell_w));
            let ghost old_len = cells@.len() as int;
            cells.push(Rect { x, y, width: cell_w, height: cell_h });
            proof {
                vstd::arithmetic::div_mod::lemma_fundamental_div_mod_converse_div(
                    old_len,
                    cols as int,
                    row as int,
                    col as int,
                );
                vstd::arithmetic::div_mod::lemma_fundamental_div_mod_converse_mod(
                    old_len,
                    cols as int,
                    row as int,
                    col as int,
                );
                assert(cell_ok(region, cols as int, rows as int, old_len, cells@[old_len]));
            }
            col = col + 1;
        }
        proof {
            assert((row as int) * (cols as int) + (cols as int) == ((row as int) + 1) * (
            cols as int)) by (nonlinear_arith);
        }
        row = row + 1;
    }
    proof {
        assert forall|rw: int, cl: int| 0 <= rw < rows && 0 <= cl < cols implies {
            let c = #[trigger] cells@[rw * (cols as int) + cl];
            &&& c.x@ == cell_x(region, cols as int, cl)
            &&& c.y@ == cell_y(region, rows as int, rw)
            &&& c.width@ == cell_width(region, cols as int)
            &&& c.height@ == cell_height(region, rows as int)
        } by {
            assert(0 <= rw * (cols as int) + cl < (rows as int) * (cols as int))
                by (nonlinear_arith)
                requires
                    0 <= rw < rows as int,
                    0 <= cl < cols as int,
            ;
            let j = rw * (cols as int) + cl;
            vstd::arithmetic::div_mod::lemma_fundamental_div_mod_converse_div(
                j,
                cols as int,
                rw,
                cl,
            );
            vstd::arithmetic::div_mod::lemma_fundamental_div_mod_converse_mod(
                j,
                cols as int,
                rw,
                cl,
            );
            assert(cell_ok(region, cols as int, rows as int, j, cells@[j]));
        }
        assert forall|c: Rect| cells@.contains(c) implies c.wf() by {
            let idx = choose|idx: int| 0 <= idx < cells@.len() && cells@[idx] == c;
            assert(cell_ok(region, cols as int, rows as int, idx, cells@[idx]));
        }
    }
    cells
}

/// The full region of a texture of the given pixel size, anchored at the
/// origin.
pub fn get_texture_region(texture_size: Size) -> (r: Rect)
    ensures
        r.x@ == (0int, 1int),
        r.y@ == (0int, 1int),
        r.width@ == (texture_size.width as int, 1int),
        r.height@ == (texture_size.height as int, 1int),
        r.wf(),
{
    Rect::of_size(texture_size)
}

} // verus!
