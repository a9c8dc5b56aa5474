//! Derived resolution-adaptation parameters and coordinate conversion.
//!
//! `ResolutionAdaptParams` is the immutable result of applying a
//! `ResolutionPolicy` to a measured surface size: the logical canvas size,
//! the per-axis scale factor, and the viewport rectangle the canvas occupies
//! on the surface.  Its mathematical content is the ghost `ParamsModel`, a
//! record of exact fractions, over which the conversion round-trip law is
//! proved.

use vstd::prelude::*;
use crate::rational::{
    Frac, add_fits, div_fits, frac_add, frac_div, frac_eqv, frac_mul, frac_sub, frac_wf,
    lemma_add_congruence, lemma_add_then_sub, lemma_div_congruence, lemma_div_then_mul,
    lemma_div_wf, lemma_eqv_trans, lemma_mul_then_div, lemma_mul_wf, lemma_sub_then_add,
    mul_fits, sub_fits,
};
use crate::geometry::{Rect, RatSize, Vector};

verus! {

/// The mathematical content of `ResolutionAdaptParams`: each component as
/// an exact fraction.
pub ghost struct ParamsModel {
    pub canvas_width: Frac,
    pub canvas_height: Frac,
    pub scale_x: Frac,
    pub scale_y: Frac,
    pub viewport_x: Frac,
    pub viewport_y: Frac,
    pub viewport_width: Frac,
    pub viewport_height: Frac,
}

impl ParamsModel {
    pub open spec fn wf(self) -> bool {
        &&& frac_wf(self.canvas_width)
        &&& frac_wf(self.canvas_height)
        &&& frac_wf(self.scale_x)
        &&& frac_wf(self.scale_y)
        &&& frac_wf(self.viewport_x)
        &&& frac_wf(self.viewport_y)
        &&& frac_wf(self.viewport_width)
        &&& frac_wf(self.viewport_height)
    }

    /// Both scale factors are non-zero, so coordinate conversion is defined.
    pub open spec fn scale_invertible(self) -> bool {
        self.scale_x.0 != 0 && self.scale_y.0 != 0
    }

    /// The x coordinate of a window position mapped into canvas space:
    /// `(x - viewport.x) / scale.x`.
    pub open spec fn to_canvas_x(self, x: Frac) -> Frac {
        frac_div(frac_sub(x, self.viewport_x), self.scale_x)
    }

    pub open spec fn to_canvas_y(self, y: Frac) -> Frac {
        frac_div(frac_sub(y, self.viewport_y), self.scale_y)
    }

    /// The x coordinate of a canvas position mapped into window space:
    /// `x * scale.x + viewport.x`.
    pub open spec fn to_window_x(self, x: Frac) -> Frac {
        frac_add(frac_mul(x, self.scale_x), self.viewport_x)
    }

    pub open spec fn to_window_y(self, y: Frac) -> Frac {
        frac_add(frac_mul(y, self.scale_y), self.viewport_y)
    }
}

/// The immutable result of applying a resolution policy to a surface size.
#[derive(Clone, Copy, Debug, PartialEq, Eq, Structural)]
pub struct ResolutionAdaptParams {
    pub canvas_size: RatSize,
    pub scale_factor: Vector,
    pub window_viewport: Rect,
}

impl View for ResolutionAdaptParams {
    type V = ParamsModel;

    open spec fn view(&self) -> ParamsModel {
        ParamsModel {
            canvas_width: self.canvas_size.width@,
            canvas_height: self.canvas_size.height@,
            scale_x: self.scale_factor.x@,
            scale_y: self.scale_factor.y@,
            viewport_x: self.window_viewport.x@,
            viewport_y: self.window_viewport.y@,
            viewport_width: self.window_viewport.width@,
            viewport_height: self.window_viewport.height@,
        }
    }
}

impl ResolutionAdaptParams {
    pub open spec fn wf(self) -> bool {
        self@.wf()
    }

    /// The products formed when converting `p` to canvas space fit in `i128`.
    pub open spec fn to_canvas_fits(self, p: Vector) -> bool {
        &&& sub_fits(p.x@, self@.viewport_x)
        &&& div_fits(frac_sub(p.x@, self@.viewport_x), self@.scale_x)
        &&& sub_fits(p.y@, self@.viewport_y)
        &&& div_fits(frac_sub(p.y@, self@.viewport_y), self@.scale_y)
    }

    /// The products formed when converting `p` to window space fit in `i128`.
    pub open spec fn to_window_fits(self, p: Vector) -> bool {
        &&& mul_fits(p.x@, self@.scale_x)
        &&& add_fits(frac_mul(p.x@, self@.scale_x), self@.viewport_x)
        &&& mul_fits(p.y@, self@.scale_y)
        &&& add_fits(frac_mul(p.y@, self@.scale_y), self@.viewport_y)
    }

    /// Maps a position on the real surface to the canvas coordinate space:
    /// `(p - viewport.position) / scale_factor`, per axis.
    pub fn convert_to_canvas_position(&self, window_position: Vector) -> (r: Vector)
        requires
            self.wf(),
            window_position.wf(),
            self@.scale_invertible(),
            self.to_canvas_fits(window_position),
        ensures
            r.x@ == self@.to_canvas_x(window_position.x@),
            r.y@ == self@.to_canvas_y(window_position.y@),
            r.wf(),
    {
        Vector {
            x: window_position.x.sub(self.window_viewport.x).div(self.scale_factor.x),
            y: window_position.y.sub(self.window_viewport.y).div(self.scale_factor.y),
        }
    }

    /// Maps a position in canvas space back onto the real surface:
    /// `p * scale_factor + viewport.position`, per axis.
    pub fn convert_to_window_position(&self, canvas_position: Vector) -> (r: Vector)
        requires
            self.wf(),
            canvas_position.wf(),
            self.to_window_fits(canvas_position),
        ensures
            r.x@ == self@.to_window_x(canvas_position.x@),
            r.y@ == self@.to_window_y(canvas_position.y@),
            r.wf(),
    {
        Vector {
            x: canvas_position.x.mul(self.scale_factor.x).add(self.window_viewport.x),
            y: canvas_position.y.mul(self.scale_factor.y).add(self.window_viewport.y),
        }
    }
}

/// On one axis, `to_window` and `to_canvas` are exact inverses: offset by
/// `v` and scale by `s`, in either order of application.
proof fn lemma_axis_round_trip(v: Frac, s: Frac, p: Frac)
    requires
        frac_wf(v),
        frac_wf(s),
        frac_wf(p),
        s.0 != 0,
    ensures
        frac_eqv(frac_add(frac_mul(frac_div(frac_sub(p, v), s), s), v), p),
        frac_eqv(frac_div(frac_sub(frac_add(frac_mul(p, s), v), v), s), p),
{
    let d = frac_sub(p, v);
    lemma_mul_wf(p, v);
    lemma_div_wf(d, s);
    lemma_div_then_mul(d, s);
    lemma_mul_wf(frac_div(d, s), s);
    lemma_add_congruence(frac_mul(frac_div(d, s), s), d, v);
    lemma_sub_then_add(p, v);
    lemma_mul_wf(frac_mul(frac_div(d, s), s), v);
    lemma_mul_wf(d, v);
    lemma_eqv_trans(frac_add(frac_mul(frac_div(d, s), s), v), frac_add(d, v), p);

    let m = frac_mul(p, s);
    lemma_mul_wf(p, s);
    lemma_mul_wf(m, v);
    lemma_add_then_sub(m, v);
    lemma_mul_wf(frac_add(m, v), v);
    lemma_div_congruence(frac_sub(frac_add(m, v), v), m, s);
    lemma_mul_then_div(p, s);
    lemma_div_wf(frac_sub(frac_add(m, v), v), s);
    lemma_div_wf(m, s);
    lemma_eqv_trans(frac_div(frac_sub(frac_add(m, v), v), s), frac_div(m, s), p);
}

/// Coordinate conversion round trip: for every well-formed parameter set
/// with non-zero scale and every position `(px, py)`, converting to canvas
/// space and back to window space — or to window space and back to canvas
/// space — yields exactly the starting position.
pub proof fn lemma_conversion_round_trip(m: ParamsModel, px: Frac, py: Frac)
    requires
        m.wf(),
        m.scale_invertible(),
        frac_wf(px),
        frac_wf(py),
    ensures
        frac_eqv(m.to_window_x(m.to_canvas_x(px)), px),
        frac_eqv(m.to_window_y(m.to_canvas_y(py)), py),
        frac_eqv(m.to_canvas_x(m.to_window_x(px)), px),
        frac_eqv(m.to_canvas_y(m.to_window_y(py)), py),
{
    lemma_axis_round_trip(m.viewport_x, m.scale_x, px);
    lemma_axis_round_trip(m.viewport_y, m.scale_y, py);
}

} // verus!
