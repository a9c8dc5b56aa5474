//! A static sprite: one named texture region with a pivot and a tint.

use vstd::prelude::*;
use crate::color::Color;
use crate::frame::{cell_height, cell_width, cell_x, cell_y, split_fits, split_region};
use crate::geometry::{Rect, Vector};

verus! {

#[derive(Clone, Debug)]
pub struct Sprite {
    /// The name under which the texture is registered.
    pub res_name: String,
    /// The sub-rectangle of the texture, in texture pixels.
    pub region: Rect,
    /// The local pivot used when the sprite is placed.
    pub origin: Vector,
    /// The tint applied when the sprite is drawn.
    pub color: Color,
}

impl Sprite {
    /// A sprite over the given region, with the pivot at the origin and a
    /// neutral (opaque white) tint.
    pub fn new(res_name: String, region: Rect) -> (s: Sprite)
        ensures
            s.res_name@ == res_name@,
            s.region == region,
            s.origin.x@ == (0int, 1int),
            s.origin.y@ == (0int, 1int),
            s.color == (Color { red: 255u8, green: 255u8, blue: 255u8, alpha: 255u8 }),
    {
        Sprite { res_name, region, origin: Vector::zero(), color: Color::white() }
    }

    pub fn res_name(&self) -> (r: &str)
        ensures
            r@ == self.res_name@,
    {
        self.res_name.as_str()
    }

    pub fn set_res_name(&mut self, res_name: String)
        ensures
            final(self).res_name@ == res_name@,
            final(self).region == old(self).region,
            final(self).origin == old(self).origin,
            final(self).color == old(self).color,
    {
        self.res_name = res_name;
    }

    pub fn region(&self) -> (r: Rect)
        ensures
            r == self.region,
    {
        self.region
    }

    pub fn set_region(&mut self, region: Rect)
        ensures
            final(self).region == region,
            final(self).res_name@ == old(self).res_name@,
            final(self).origin == old(self).origin,
            final(self).color == old(self).color,
    {
        self.region = region;
    }

    pub fn origin(&self) -> (r: Vector)
        ensures
            r == self.origin,
    {
        self.origin
    }

    pub fn set_origin(&mut self, origin: Vector)
        ensures
            final(self).origin == origin,
            final(self).res_name@ == old(self).res_name@,
            final(self).region == old(self).region,
            final(self).color == old(self).color,
    {
        self.origin = origin;
    }

    pub fn color(&self) -> (c: Color)
        ensures
            c == self.color,
    {
        self.color
    }

    pub fn set_color(&mut self, color: Color)
        ensures
            final(self).color == color,
            final(self).res_name@ == old(self).res_name@,
            final(self).region == old(self).region,
            final(self).origin == old(self).origin,
    {
        self.color = color;
    }

    /// Tiles this sprite's region into a `cols x rows` grid, row-major:
    /// one sprite per cell, keeping the resource name and tint, with the
    /// given pivot.
    pub fn split(&self, cols: usize, rows: usize, origin: Vector) -> (r: Vec<Sprite>)
        requires
            1 <= cols,
            1 <= rows,
            rows * cols <= usize::MAX,
            self.region.wf(),
            split_fits(self.region, cols as int, rows as int),
        ensures
            r@.len() == rows * cols,
            forall|row: int, col: int|
                0 <= row < rows && 0 <= col < cols ==> {
                    let s = #[trigger] r@[row * (cols as int) + col];
                    &&& s.res_name@ == self.res_name@
                    &&& s.origin == origin
                    &&& s.color == self.color
                    &&& s.region.x@ == cell_x(self.region, cols as int, col)
                    &&& s.region.y@ == cell_y(self.region, rows as int, row)
                    &&& s.region.width@ == cell_width(self.region, cols as int)
                    &&& s.region.height@ == cell_height(self.region, rows as int)
                },
    {
        let cells = split_region(self.region, cols, rows);
        let mut sheet: Vec<Sprite> = Vec::new();
        let mut i: usize = 0;
        while i < cells.len()
            invariant
                cells@.len() == rows * cols,
                i <= cells@.len(),
                sheet@.len() == i,
                forall|j: int|
                    0 <= j < i ==> #[trigger] sheet@[j].region == cells@[j]
                        && sheet@[j].res_name@ == self.res_name@ && sheet@[j].origin == origin
                        && sheet@[j].color == self.color,
            decreases cells@.len() - i,
        {
            sheet.push(
                Sprite {
                    res_name: self.res_name.clone(),
                    region: cells[i],
                    origin,
                    color: self.color,
                },
            );
            i = i + 1;
        }
        proof {
            assert forall|row: int, col: int| 0 <= row < rows && 0 <= col < cols implies {
                let s = #[trigger] sheet@[row * (cols as int) + col];
                &&& s.res_name@ == self.res_name@
                &&& s.origin == origin
                &&& s.color == self.color
                &&& s.region.x@ == cell_x(self.region, cols as int, col)
                &&& s.region.y@ == cell_y(self.region, rows as int, row)
                &&& s.region.width@ == cell_width(self.region, cols as int)
                &&& s.region.height@ == cell_height(self.region, rows as int)
            } by {
                assert(0 <= row * (cols as int) + col < (rows as int) * (cols as int))
                    by (nonlinear_arith)
                    requires
                        0 <= row < rows as int,
                        0 <= col < cols as int,
                ;
                let j = row * (cols as int) + col;
                assert(sheet@[j].region == cells@[j]);
                assert(sheet@[j].res_name@ == self.res_name@);
                assert(sheet@[j].origin == origin);
                assert(sheet@[j].color == self.color);
            }
        }
        sheet
    }
}

} // verus!
