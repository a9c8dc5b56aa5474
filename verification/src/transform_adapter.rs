//! The direct-transform resolution strategy.
//!
//! This adapter avoids an off-screen target: the renderer draws straight
//! onto the real surface, with the drawing viewport restricted to the
//! computed window viewport and a pure per-axis scale transform installed
//! for every draw call (the offset comes from the viewport, not the
//! transform).  Clearing is simulated by filling a rectangle covering the
//! whole canvas.  Because the surface is shared, canvas-space viewport
//! queries must go through the scale/viewport math; `canvas_viewport` and
//! `set_canvas_viewport` are that math.

use vstd::prelude::*;
use crate::adapter::{ClearCommand, MisuseFault, ResolutionAdapter};
use crate::color::Color;
use crate::geometry::{Rect, RatSize, Size, Vector};
use crate::params::ResolutionAdaptParams;
use crate::policy::{lemma_model_wf, model_of, ResolutionPolicy};
use crate::rational::{div_fits, frac_div, frac_mul, mul_fits, Rat};

verus! {

pub struct TransformResolutionAdapter {
    policy: ResolutionPolicy,
    surface_size: Size,
    params: ResolutionAdaptParams,
    transform: Vector,
    locked: bool,
}

impl TransformResolutionAdapter {
    pub fn new(policy: ResolutionPolicy, surface: Size) -> (r: Self)
        requires
            policy.wf(),
            surface.positive(),
        ensures
            r.inv(),
            r.policy_spec() == policy,
            r.surface_spec() == surface,
            !r.locked_spec(),
    {
        let params = policy.calculate_params(surface);
        TransformResolutionAdapter {
            policy,
            surface_size: surface,
            params,
            transform: params.scale_factor,
            locked: false,
        }
    }

    /// The per-axis scale the renderer must compose with every draw call
    /// while the bracket is open.
    pub fn transform(&self) -> (v: Vector)
        requires
            self.inv(),
        ensures
            v == self.params_spec().scale_factor,
    {
        self.transform
    }

    /// Maps a viewport rectangle on the surface into canvas coordinates:
    /// the position as `convert_to_canvas_position`, the extent divided by
    /// the scale factor.
    pub fn canvas_viewport(&self, window_viewport: Rect) -> (r: Rect)
        requires
            self.inv(),
            window_viewport.wf(),
            self.params_spec().to_canvas_fits(
                (Vector { x: window_viewport.x, y: window_viewport.y }),
            ),
            div_fits(window_viewport.width@, self.params_spec()@.scale_x),
            div_fits(window_viewport.height@, self.params_spec()@.scale_y),
        ensures
            r.x@ == self.params_spec()@.to_canvas_x(window_viewport.x@),
            r.y@ == self.params_spec()@.to_canvas_y(window_viewport.y@),
            r.width@ == frac_div(window_viewport.width@, self.params_spec()@.scale_x),
            r.height@ == frac_div(window_viewport.height@, self.params_spec()@.scale_y),
            r.wf(),
    {
        proof {
            lemma_model_wf(self.policy, self.surface_size);
        }
        let position = self.params.convert_to_canvas_position(
            Vector::new(window_viewport.x, window_viewport.y),
        );
        let width = window_viewport.width.div(self.params.scale_factor.x);
        let height = window_viewport.height.div(self.params.scale_factor.y);
        Rect::new(position.x, position.y, width, height)
    }

    /// Maps a canvas-space viewport onto the surface: the rectangle the
    /// renderer must restrict drawing to.  `None` selects the whole
    /// canvas, that is, the computed window viewport.
    pub fn set_canvas_viewport(&self, canvas_viewport: Option<Rect>) -> (r: Rect)
        requires
            self.inv(),
            canvas_viewport matches Some(cv) ==> cv.wf() && self.params_spec().to_window_fits(
                (Vector { x: cv.x, y: cv.y }),
            ) && mul_fits(cv.width@, self.params_spec()@.scale_x) && mul_fits(
                cv.height@,
                self.params_spec()@.scale_y,
            ),
        ensures
            canvas_viewport matches Some(cv) ==> r.x@ == self.params_spec()@.to_window_x(cv.x@)
                && r.y@ == self.params_spec()@.to_window_y(cv.y@) && r.width@ == frac_mul(
                cv.width@,
                self.params_spec()@.scale_x,
            ) && r.height@ == frac_mul(cv.height@, self.params_spec()@.scale_y),
            canvas_viewport is None ==> r == self.params_spec().window_viewport,
    {
        match canvas_viewport {
            Some(cv) => {
                let position = self.params.convert_to_window_position(Vector::new(cv.x, cv.y));
                let width = cv.width.mul(self.params.scale_factor.x);
                let height = cv.height.mul(self.params.scale_factor.y);
                Rect::new(position.x, position.y, width, height)
            },
            None => self.params.window_viewport,
        }
    }
}

impl ResolutionAdapter for TransformResolutionAdapter {
    closed spec fn policy_spec(&self) -> ResolutionPolicy {
        self.policy
    }

    closed spec fn surface_spec(&self) -> Size {
        self.surface_size
    }

    closed spec fn params_spec(&self) -> ResolutionAdaptParams {
        self.params
    }

    closed spec fn locked_spec(&self) -> bool {
        self.locked
    }

    closed spec fn inv(&self) -> bool {
        &&& self.policy.wf()
        &&& self.surface_size.positive()
        &&& self.params@ == model_of(self.policy, self.surface_size)
        &&& self.params.wf()
        &&& self.transform == self.params.scale_factor
    }

    proof fn inv_properties(&self) {
    }

    fn policy(&self) -> ResolutionPolicy {
        self.policy
    }

    fn set_policy(&mut self, policy: ResolutionPolicy) -> Result<(), MisuseFault> {
        if self.locked {
            return Err(MisuseFault::AdapterLocked);
        }
        if self.policy != policy {
            self.policy = policy;
            let params = self.policy.calculate_params(self.surface_size);
            self.params = params;
            self.transform = params.scale_factor;
        }
        Ok(())
    }

    fn measure(&mut self, surface: Size) -> Result<(), MisuseFault> {
        if self.locked {
            return Err(MisuseFault::AdapterLocked);
        }
        if self.surface_size != surface {
            self.surface_size = surface;
            let params = self.policy.calculate_params(self.surface_size);
            self.params = params;
            self.transform = params.scale_factor;
        }
        Ok(())
    }

    fn canvas_size(&self) -> RatSize {
        self.params.canvas_size
    }

    fn scale_factor(&self) -> Vector {
        self.params.scale_factor
    }

    fn window_viewport(&self) -> Rect {
        self.params.window_viewport
    }

    fn convert_to_canvas_position(&self, window_position: Vector) -> Vector {
        proof {
            lemma_model_wf(self.policy, self.surface_size);
        }
        self.params.convert_to_canvas_position(window_position)
    }

    fn convert_to_window_position(&self, canvas_position: Vector) -> Vector {
        self.params.convert_to_window_position(canvas_position)
    }

    fn begin(&mut self, surface: Size) -> Result<(), MisuseFault> {
        if self.locked {
            return Err(MisuseFault::AdapterLocked);
        }
        if self.surface_size != surface {
            self.surface_size = surface;
            let params = self.policy.calculate_params(self.surface_size);
            self.params = params;
            self.transform = params.scale_factor;
        }
        self.locked = true;
        Ok(())
    }

    fn clear(&self, color: Color) -> Result<ClearCommand, MisuseFault> {
        if !self.locked {
            return Err(MisuseFault::AdapterUnlocked);
        }
        Ok(
            ClearCommand {
                area: Rect::new(
                    Rat::of_int(0),
                    Rat::of_int(0),
                    self.params.canvas_size.width,
                    self.params.canvas_size.height,
                ),
                color,
            },
        )
    }

    fn end(&mut self) -> Result<(), MisuseFault> {
        if !self.locked {
            return Err(MisuseFault::AdapterUnlocked);
        }
        self.locked = false;
        Ok(())
    }
}

} // verus!
