//! Resolution policies and the policy math.
//!
//! A `ResolutionPolicy` names one strategy for mapping a fixed design size
//! onto a variable surface size.  `calculate_params` turns a policy and a
//! measured surface size into `ResolutionAdaptParams`; it is a pure
//! function, specified exactly by `model_of`.  The proofs at the end state
//! the geometric guarantees: equal aspect ratios collapse to unit scale,
//! an `Inside` viewport stays within the surface, and a `Crop` viewport
//! covers it.

use vstd::prelude::*;
use crate::geometry::{Rect, RatSize, Size, Vector};
use crate::params::{ParamsModel, ResolutionAdaptParams};
use crate::rational::{Frac, frac_add, frac_le, Rat};

verus! {

/// How a fixed design size maps onto a variable surface size.
#[derive(Clone, Copy, Debug, PartialEq, Eq, Structural)]
pub enum ResolutionPolicy {
    /// No scaling; the canvas is the surface.
    Normal,
    /// The canvas keeps its native design size, centered on the surface.
    Center(Size),
    /// The canvas is stretched independently on each axis to fill the
    /// surface.
    Stretch(Size),
    /// Uniform scale chosen so the design rectangle fits entirely within
    /// the surface (letterboxed).
    Inside(Size),
    /// Uniform scale chosen so the design rectangle fully covers the
    /// surface (cropped).
    Crop(Size),
    /// The canvas width is fixed; the height follows the surface aspect
    /// ratio.
    FixedWidth(u32),
    /// The canvas height is fixed; the width follows the surface aspect
    /// ratio.
    FixedHeight(u32),
}

impl ResolutionPolicy {
    /// Any carried design size has strictly positive axes, so the policy
    /// math divides by no zero.
    pub open spec fn wf(self) -> bool {
        match self {
            ResolutionPolicy::Normal => true,
            ResolutionPolicy::Center(d) => d.positive(),
            ResolutionPolicy::Stretch(d) => d.positive(),
            ResolutionPolicy::Inside(d) => d.positive(),
            ResolutionPolicy::Crop(d) => d.positive(),
            ResolutionPolicy::FixedWidth(w) => w > 0,
            ResolutionPolicy::FixedHeight(h) => h > 0,
        }
    }
}

/// The parameters a policy derives from a surface size, as exact fractions.
///
/// Aspect ratios are compared by cross multiplication:
/// `surface.w / surface.h < design.w / design.h` exactly when
/// `surface.w * design.h < design.w * surface.h`.
pub open spec fn model_of(policy: ResolutionPolicy, surface: Size) -> ParamsModel {
    let sw = surface.width as int;
    let sh = surface.height as int;
    match policy {
        ResolutionPolicy::Normal => ParamsModel {
            canvas_width: (sw, 1int),
            canvas_height: (sh, 1int),
            scale_x: (1int, 1int),
            scale_y: (1int, 1int),
            viewport_x: (0int, 1int),
            viewport_y: (0int, 1int),
            viewport_width: (sw, 1int),
            viewport_height: (sh, 1int),
        },
        ResolutionPolicy::Center(d) => {
            let dw = d.width as int;
            let dh = d.height as int;
            ParamsModel {
                canvas_width: (dw, 1int),
                canvas_height: (dh, 1int),
                scale_x: (1int, 1int),
                scale_y: (1int, 1int),
                viewport_x: (sw - dw, 2int),
                viewport_y: (sh - dh, 2int),
                viewport_width: (dw, 1int),
                viewport_height: (dh, 1int),
            }
        },
        ResolutionPolicy::Stretch(d) => {
            let dw = d.width as int;
            let dh = d.height as int;
            ParamsModel {
                canvas_width: (dw, 1int),
                canvas_height: (dh, 1int),
                scale_x: (sw, dw),
                scale_y: (sh, dh),
                viewport_x: (0int, 1int),
                viewport_y: (0int, 1int),
                viewport_width: (sw, 1int),
                viewport_height: (sh, 1int),
            }
        },
        ResolutionPolicy::Inside(d) => {
            let dw = d.width as int;
            let dh = d.height as int;
            if sw * dh < dw * sh {
                // Surface relatively narrower: scale by width, center
                // vertically.
                ParamsModel {
                    canvas_width: (dw, 1int),
                    canvas_height: (dh, 1int),
                    scale_x: (sw, dw),
                    scale_y: (sw, dw),
                    viewport_x: (0int, 1int),
                    viewport_y: (sh * dw - dh * sw, 2 * dw),
                    viewport_width: (sw, 1int),
                    viewport_height: (dh * sw, dw),
                }
            } else if sw * dh > dw * sh {
                // Surface relatively wider: scale by height, center
                // horizontally.
                ParamsModel {
                    canvas_width: (dw, 1int),
                    canvas_height: (dh, 1int),
                    scale_x: (sh, dh),
                    scale_y: (sh, dh),
                    viewport_x: (sw * dh - dw * sh, 2 * dh),
                    viewport_y: (0int, 1int),
                    viewport_width: (dw * sh, dh),
                    viewport_height: (sh, 1int),
                }
            } else {
                // Equal aspect ratios: unit scale, full-surface viewport.
                ParamsModel {
                    canvas_width: (dw, 1int),
                    canvas_height: (dh, 1int),
                    scale_x: (1int, 1int),
                    scale_y: (1int, 1int),
                    viewport_x: (0int, 1int),
                    viewport_y: (0int, 1int),
                    viewport_width: (sw, 1int),
                    viewport_height: (sh, 1int),
                }
            }
        },
        ResolutionPolicy::Crop(d) => {
            let dw = d.width as int;
            let dh = d.height as int;
            if sw * dh < dw * sh {
                // Surface relatively narrower: scale by height, crop
                // horizontally.
                ParamsModel {
                    canvas_width: (dw, 1int),
                    canvas_height: (dh, 1int),
                    scale_x: (sh, dh),
                    scale_y: (sh, dh),
                    viewport_x: (sw * dh - dw * sh, 2 * dh),
                    viewport_y: (0int, 1int),
                    viewport_width: (dw * sh, dh),
                    viewport_height: (sh, 1int),
                }
            } else if sw * dh > dw * sh {
                // Surface relatively wider: scale by width, crop
                // vertically.
                ParamsModel {
                    canvas_width: (dw, 1int),
                    canvas_height: (dh, 1int),
                    scale_x: (sw, dw),
                    scale_y: (sw, dw),
                    viewport_x: (0int, 1int),
                    viewport_y: (sh * dw - dh * sw, 2 * dw),
                    viewport_width: (sw, 1int),
                    viewport_height: (dh * sw, dw),
                }
            } else {
                // Equal aspect ratios: unit scale, full-surface viewport.
                ParamsModel {
                    canvas_width: (dw, 1int),
                    canvas_height: (dh, 1int),
                    scale_x: (1int, 1int),
                    scale_y: (1int, 1int),
                    viewport_x: (0int, 1int),
                    viewport_y: (0int, 1int),
                    viewport_width: (sw, 1int),
                    viewport_height: (sh, 1int),
                }
            }
        },
        ResolutionPolicy::FixedWidth(w) => {
            let dw = w as int;
            ParamsModel {
                canvas_width: (dw, 1int),
                canvas_height: (sh * dw, sw),
                scale_x: (sw, dw),
                scale_y: (sw, dw),
                viewport_x: (0int, 1int),
                viewport_y: (0int, 1int),
                viewport_width: (sw, 1int),
                viewport_height: (sh, 1int),
            }
        },
        ResolutionPolicy::FixedHeight(h) => {
            let dh = h as int;
            ParamsModel {
                canvas_width: (sw * dh, sh),
                canvas_height: (dh, 1int),
                scale_x: (sh, dh),
                scale_y: (sh, dh),
                viewport_x: (0int, 1int),
                viewport_y: (0int, 1int),
                viewport_width: (sw, 1int),
                viewport_height: (sh, 1int),
            }
        },
    }
}

/// The exact product of two pixel counts.
fn cross(a: u32, b: u32) -> (r: i128)
    ensures
        r == (a as int) * (b as int),
        0 <= r < 0x1_0000_0000_0000_0000,
{
    proof {
        assert(0 <= (a as int) * (b as int) < 0x1_0000_0000_0000_0000) by (nonlinear_arith)
            requires
                0 <= (a as int) < 0x1_0000_0000,
                0 <= (b as int) < 0x1_0000_0000,
        ;
    }
    (a as i128) * (b as i128)
}

impl ResolutionPolicy {
    /// Derives the canvas size, scale factor and window viewport for the
    /// given surface size, exactly as `model_of` states.
    pub fn calculate_params(&self, surface: Size) -> (r: ResolutionAdaptParams)
        requires
            self.wf(),
            surface.positive(),
        ensures
            r@ == model_of(*self, surface),
            r.wf(),
    {
        match self {
            ResolutionPolicy::Normal => ResolutionAdaptParams {
                canvas_size: RatSize::of_size(surface),
                scale_factor: Vector::new(Rat::of_int(1), Rat::of_int(1)),
                window_viewport: Rect::of_size(surface),
            },
            ResolutionPolicy::Center(design_size) => {
                let d = *design_size;
                let vx = Rat::new(surface.width as i128 - d.width as i128, 2);
                let vy = Rat::new(surface.height as i128 - d.height as i128, 2);
                ResolutionAdaptParams {
                    canvas_size: RatSize::of_size(d),
                    scale_factor: Vector::new(Rat::of_int(1), Rat::of_int(1)),
                    window_viewport: Rect::new(
                        vx,
                        vy,
                        Rat::of_int(d.width as i128),
                        Rat::of_int(d.height as i128),
                    ),
                }
            },
            ResolutionPolicy::Stretch(design_size) => {
                let d = *design_size;
                ResolutionAdaptParams {
                    canvas_size: RatSize::of_size(d),
                    scale_factor: Vector::new(
                        Rat::new(surface.width as i128, d.width as i128),
                        Rat::new(surface.height as i128, d.height as i128),
                    ),
                    window_viewport: Rect::of_size(surface),
                }
            },
            ResolutionPolicy::Inside(design_size) => {
                let d = *design_size;
                let surface_cross = cross(surface.width, d.height);
                let design_cross = cross(d.width, surface.height);
                if surface_cross < design_cross {
                    let scale = Rat::new(surface.width as i128, d.width as i128);
                    let vy = Rat::new(
                        cross(surface.height, d.width) - cross(d.height, surface.width),
                        2 * (d.width as i128),
                    );
                    let vh = Rat::new(cross(d.height, surface.width), d.width as i128);
                    ResolutionAdaptParams {
                        canvas_size: RatSize::of_size(d),
                        scale_factor: Vector::new(scale, scale),
                        window_viewport: Rect::new(
                            Rat::of_int(0),
                            vy,
                            Rat::of_int(surface.width as i128),
                            vh,
                        ),
                    }
                } else if surface_cross > design_cross {
                    let scale = Rat::new(surface.height as i128, d.height as i128);
                    let vx = Rat::new(
                        cross(surface.width, d.height) - cross(d.width, surface.height),
                        2 * (d.height as i128),
                    );
                    let vw = Rat::new(cross(d.width, surface.height), d.height as i128);
                    ResolutionAdaptParams {
                        canvas_size: RatSize::of_size(d),
                        scale_factor: Vector::new(scale, scale),
                        window_viewport: Rect::new(
                            vx,
                            Rat::of_int(0),
                            vw,
                            Rat::of_int(surface.height as i128),
                        ),
                    }
                } else {
                    ResolutionAdaptParams {
                        canvas_size: RatSize::of_size(d),
                        scale_factor: Vector::new(Rat::of_int(1), Rat::of_int(1)),
                        window_viewport: Rect::of_size(surface),
                    }
                }
            },
            ResolutionPolicy::Crop(design_size) => {
                let d = *design_size;
                let surface_cross = cross(surface.width, d.height);
                let design_cross = cross(d.width, surface.height);
                if surface_cross < design_cross {
                    let scale = Rat::new(surface.height as i128, d.height as i128);
                    let vx = Rat::new(
                        cross(surface.width, d.height) - cross(d.width, surface.height),
                        2 * (d.height as i128),
                    );
                    let vw = Rat::new(cross(d.width, surface.height), d.height as i128);
                    ResolutionAdaptParams {
                        canvas_size: RatSize::of_size(d),
                        scale_factor: Vector::new(scale, scale),
                        window_viewport: Rect::new(
                            vx,
                            Rat::of_int(0),
                            vw,
                            Rat::of_int(surface.height as i128),
                        ),
                    }
                } else if surface_cross > design_cross {
                    let scale = Rat::new(surface.width as i128, d.width as i128);
                    let vy = Rat::new(
                        cross(surface.height, d.width) - cross(d.height, surface.width),
                        2 * (d.width as i128),
                    );
                    let vh = Rat::new(cross(d.height, surface.width), d.width as i128);
                    ResolutionAdaptParams {
                        canvas_size: RatSize::of_size(d),
                        scale_factor: Vector::new(scale, scale),
                        window_viewport: Rect::new(
                            Rat::of_int(0),
                            vy,
                            Rat::of_int(surface.width as i128),
                            vh,
                        ),
                    }
                } else {
                    ResolutionAdaptParams {
                        canvas_size: RatSize::of_size(d),
                        scale_factor: Vector::new(Rat::of_int(1), Rat::of_int(1)),
                        window_viewport: Rect::of_size(surface),
                    }
                }
            },
            ResolutionPolicy::FixedWidth(design_width) => {
                let w = *design_width;
                let scale = Rat::new(surface.width as i128, w as i128);
                let canvas_height = Rat::new(cross(surface.height, w), surface.width as i128);
                ResolutionAdaptParams {
                    canvas_size: RatSize::new(Rat::of_int(w as i128), canvas_height),
                    scale_factor: Vector::new(scale, scale),
                    window_viewport: Rect::of_size(surface),
                }
            },
            ResolutionPolicy::FixedHeight(design_height) => {
                let h = *design_height;
                let scale = Rat::new(surface.height as i128, h as i128);
                let canvas_width = Rat::new(cross(surface.width, h), surface.height as i128);
                ResolutionAdaptParams {
                    canvas_size: RatSize::new(canvas_width, Rat::of_int(h as i128)),
                    scale_factor: Vector::new(scale, scale),
                    window_viewport: Rect::of_size(surface),
                }
            },
        }
    }
}

/// The derived parameters under their fit-oriented field names: the same
/// data as `ResolutionAdaptParams`.
#[derive(Clone, Copy, Debug, PartialEq, Eq, Structural)]
pub struct FitResolutionParams {
    pub canvas_size: RatSize,
    pub canvas_scale: Vector,
    pub viewport: Rect,
}

impl ResolutionPolicy {
    /// `calculate_params`, repackaged as `FitResolutionParams`.
    pub fn calculate_fit_params(&self, surface: Size) -> (r: FitResolutionParams)
        requires
            self.wf(),
            surface.positive(),
        ensures
            ({
                let m = model_of(*self, surface);
                &&& r.canvas_size.width@ == m.canvas_width
                &&& r.canvas_size.height@ == m.canvas_height
                &&& r.canvas_scale.x@ == m.scale_x
                &&& r.canvas_scale.y@ == m.scale_y
                &&& r.viewport.x@ == m.viewport_x
                &&& r.viewport.y@ == m.viewport_y
                &&& r.viewport.width@ == m.viewport_width
                &&& r.viewport.height@ == m.viewport_height
            }),
    {
        let params = self.calculate_params(surface);
        FitResolutionParams {
            canvas_size: params.canvas_size,
            canvas_scale: params.scale_factor,
            viewport: params.window_viewport,
        }
    }
}

impl Default for ResolutionPolicy {
    fn default() -> (r: Self)
        ensures
            r == ResolutionPolicy::Normal,
    {
        ResolutionPolicy::Normal
    }
}

/// The viewport lies inside the surface rectangle: no edge sticks out.
pub open spec fn viewport_within_surface(m: ParamsModel, surface: Size) -> bool {
    &&& frac_le((0int, 1int), m.viewport_x)
    &&& frac_le((0int, 1int), m.viewport_y)
    &&& frac_le(frac_add(m.viewport_x, m.viewport_width), (surface.width as int, 1int))
    &&& frac_le(frac_add(m.viewport_y, m.viewport_height), (surface.height as int, 1int))
}

/// The viewport contains the surface rectangle: every edge is on or beyond
/// the surface's.
pub open spec fn viewport_covers_surface(m: ParamsModel, surface: Size) -> bool {
    &&& frac_le(m.viewport_x, (0int, 1int))
    &&& frac_le(m.viewport_y, (0int, 1int))
    &&& frac_le((surface.width as int, 1int), frac_add(m.viewport_x, m.viewport_width))
    &&& frac_le((surface.height as int, 1int), frac_add(m.viewport_y, m.viewport_height))
}

/// Equal aspect ratios collapse both uniform-fit policies to unit scale
/// and a full-surface viewport, whatever the sizes are.
pub proof fn lemma_equal_aspect_unit_scale(design: Size, surface: Size)
    requires
        design.positive(),
        surface.positive(),
        (surface.width as int) * (design.height as int) == (design.width as int) * (
        surface.height as int),
    ensures
        model_of(ResolutionPolicy::Inside(design), surface) == model_of(
            ResolutionPolicy::Crop(design),
            surface,
        ),
        model_of(ResolutionPolicy::Inside(design), surface).scale_x == (1int, 1int),
        model_of(ResolutionPolicy::Inside(design), surface).scale_y == (1int, 1int),
        model_of(ResolutionPolicy::Inside(design), surface).viewport_x == (0int, 1int),
        model_of(ResolutionPolicy::Inside(design), surface).viewport_y == (0int, 1int),
        model_of(ResolutionPolicy::Inside(design), surface).viewport_width == (
        surface.width as int, 1int),
        model_of(ResolutionPolicy::Inside(design), surface).viewport_height == (
        surface.height as int, 1int),
{
}

/// An `Inside` viewport is always fully contained in the surface
/// rectangle.
pub proof fn lemma_inside_viewport_within_surface(design: Size, surface: Size)
    requires
        design.positive(),
        surface.positive(),
    ensures
        viewport_within_surface(model_of(ResolutionPolicy::Inside(design), surface), surface),
{
    let sw = surface.width as int;
    let sh = surface.height as int;
    let dw = design.width as int;
    let dh = design.height as int;
    if sw * dh < dw * sh {
        assert(dh * sw <= sh * dw) by (nonlinear_arith)
            requires
                sw * dh < dw * sh,
        ;
        assert(0 * (2 * dw) <= (sh * dw - dh * sw) * 1) by (nonlinear_arith)
            requires
                dh * sw <= sh * dw,
                dw > 0,
        ;
        assert(((sh * dw - dh * sw) * dw + (dh * sw) * (2 * dw)) * 1 <= sh * ((2 * dw) * dw))
            by (nonlinear_arith)
            requires
                dh * sw <= sh * dw,
                dw > 0,
        ;
    } else if sw * dh > dw * sh {
        assert(dw * sh <= sw * dh) by (nonlinear_arith)
            requires
                sw * dh > dw * sh,
        ;
        assert(0 * (2 * dh) <= (sw * dh - dw * sh) * 1) by (nonlinear_arith)
            requires
                dw * sh <= sw * dh,
                dh > 0,
        ;
        assert(((sw * dh - dw * sh) * dh + (dw * sh) * (2 * dh)) * 1 <= sw * ((2 * dh) * dh))
            by (nonlinear_arith)
            requires
                dw * sh <= sw * dh,
                dh > 0,
        ;
    }
}

/// A `Crop` viewport always fully contains the surface rectangle.
pub proof fn lemma_crop_viewport_covers_surface(design: Size, surface: Size)
    requires
        design.positive(),
        surface.positive(),
    ensures
        viewport_covers_surface(model_of(ResolutionPolicy::Crop(design), surface), surface),
{
    let sw = surface.width as int;
    let sh = surface.height as int;
    let dw = design.width as int;
    let dh = design.height as int;
    if sw * dh < dw * sh {
        assert((sw * dh - dw * sh) * 1 <= 0 * (2 * dh)) by (nonlinear_arith)
            requires
                sw * dh < dw * sh,
        ;
        assert(sw * ((2 * dh) * dh) <= ((sw * dh - dw * sh) * dh + (dw * sh) * (2 * dh)) * 1)
            by (nonlinear_arith)
            requires
                sw * dh <= dw * sh,
                dh > 0,
        ;
    } else if sw * dh > dw * sh {
        assert((sh * dw - dh * sw) * 1 <= 0 * (2 * dw)) by (nonlinear_arith)
            requires
                sw * dh > dw * sh,
        ;
        assert(sh * ((2 * dw) * dw) <= ((sh * dw - dh * sw) * dw + (dh * sw) * (2 * dw)) * 1)
            by (nonlinear_arith)
            requires
                dw * sh <= sw * dh,
                dw > 0,
        ;
    }
}

/// The derived canvas size is non-negative and small enough for its
/// ceiling to be taken in 64 bits.
pub proof fn lemma_canvas_size_bounds(policy: ResolutionPolicy, surface: Size)
    requires
        policy.wf(),
        surface.positive(),
    ensures
        0 <= model_of(policy, surface).canvas_width.0,
        model_of(policy, surface).canvas_width.0 + model_of(policy, surface).canvas_width.1 - 1
            <= u64::MAX,
        0 <= model_of(policy, surface).canvas_height.0,
        model_of(policy, surface).canvas_height.0 + model_of(policy, surface).canvas_height.1 - 1
            <= u64::MAX,
{
    match policy {
        ResolutionPolicy::FixedWidth(w) => {
            assert(0 <= (surface.height as int) * (w as int) <= 0xffff_ffff * 0xffff_ffff)
                by (nonlinear_arith)
                requires
                    0 <= (surface.height as int) < 0x1_0000_0000,
                    0 <= (w as int) < 0x1_0000_0000,
            ;
        },
        ResolutionPolicy::FixedHeight(h) => {
            assert(0 <= (surface.width as int) * (h as int) <= 0xffff_ffff * 0xffff_ffff)
                by (nonlinear_arith)
                requires
                    0 <= (surface.width as int) < 0x1_0000_0000,
                    0 <= (h as int) < 0x1_0000_0000,
            ;
        },
        _ => {},
    }
}

/// The derived parameters are well formed and their scale factor is
/// strictly positive on both axes.
pub proof fn lemma_model_wf(policy: ResolutionPolicy, surface: Size)
    requires
        policy.wf(),
        surface.positive(),
    ensures
        model_of(policy, surface).wf(),
        model_of(policy, surface).scale_x.0 > 0,
        model_of(policy, surface).scale_y.0 > 0,
        model_of(policy, surface).scale_invertible(),
{
}

} // verus!
