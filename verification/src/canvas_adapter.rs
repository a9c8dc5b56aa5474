//! The off-screen-target resolution strategy.
//!
//! This adapter has the embedding renderer draw the whole frame into an
//! off-screen target sized to the canvas (rounded up to whole pixels, so no
//! content is clipped), and blit that target once per frame onto the real
//! surface, scaled by the scale factor and placed at the viewport position.
//! The adapter itself tracks the session state and the required target
//! size; binding the target, clearing it and blitting it are the
//! renderer's moves, driven by the getters here.

use vstd::prelude::*;
use crate::adapter::{ClearCommand, MisuseFault, ResolutionAdapter};
use crate::color::Color;
use crate::geometry::{Rect, RatSize, Size, Vector};
use crate::params::ResolutionAdaptParams;
use crate::policy::{
    lemma_canvas_size_bounds, lemma_model_wf, model_of, ResolutionPolicy,
};
use crate::rational::{frac_ceil, Rat};

verus! {

pub struct CanvasResolutionAdapter {
    policy: ResolutionPolicy,
    surface_size: Size,
    params: ResolutionAdaptParams,
    target_width: u64,
    target_height: u64,
    locked: bool,
}

impl CanvasResolutionAdapter {
    pub fn new(policy: ResolutionPolicy, surface: Size) -> (r: Self)
        requires
            policy.wf(),
            surface.positive(),
        ensures
            r.inv(),
            r.policy_spec() == policy,
            r.surface_spec() == surface,
            !r.locked_spec(),
    {
        let params = policy.calculate_params(surface);
        proof {
            lemma_canvas_size_bounds(policy, surface);
        }
        let target_width = params.canvas_size.width.ceil_to_u64();
        let target_height = params.canvas_size.height.ceil_to_u64();
        CanvasResolutionAdapter {
            policy,
            surface_size: surface,
            params,
            target_width,
            target_height,
            locked: false,
        }
    }

    /// The pixel size the off-screen target must have: the canvas size
    /// rounded up on each axis.  When this changes, the renderer resizes
    /// the target afresh; no content carries over.
    pub fn canvas_target_size(&self) -> (r: (u64, u64))
        requires
            self.inv(),
        ensures
            r.0 as int == frac_ceil(self.params_spec()@.canvas_width),
            r.1 as int == frac_ceil(self.params_spec()@.canvas_height),
    {
        (self.target_width, self.target_height)
    }
}

impl ResolutionAdapter for CanvasResolutionAdapter {
    closed spec fn policy_spec(&self) -> ResolutionPolicy {
        self.policy
    }

    closed spec fn surface_spec(&self) -> Size {
        self.surface_size
    }

    closed spec fn params_spec(&self) -> ResolutionAdaptParams {
        self.params
    }

    closed spec fn locked_spec(&self) -> bool {
        self.locked
    }

    closed spec fn inv(&self) -> bool {
        &&& self.policy.wf()
        &&& self.surface_size.positive()
        &&& self.params@ == model_of(self.policy, self.surface_size)
        &&& self.params.wf()
        &&& self.target_width as int == frac_ceil(self.params@.canvas_width)
        &&& self.target_height as int == frac_ceil(self.params@.canvas_height)
    }

    proof fn inv_properties(&self) {
    }

    fn policy(&self) -> ResolutionPolicy {
        self.policy
    }

    fn set_policy(&mut self, policy: ResolutionPolicy) -> Result<(), MisuseFault> {
        if self.locked {
            return Err(MisuseFault::AdapterLocked);
        }
        if self.policy != policy {
            self.policy = policy;
            let params = self.policy.calculate_params(self.surface_size);
            proof {
                lemma_canvas_size_bounds(self.policy, self.surface_size);
            }
            self.params = params;
            self.target_width = params.canvas_size.width.ceil_to_u64();
            self.target_height = params.canvas_size.height.ceil_to_u64();
        }
        Ok(())
    }

    fn measure(&mut self, surface: Size) -> Result<(), MisuseFault> {
        if self.locked {
            return Err(MisuseFault::AdapterLocked);
        }
        if self.surface_size != surface {
            self.surface_size = surface;
            let params = self.policy.calculate_params(self.surface_size);
            proof {
                lemma_canvas_size_bounds(self.policy, self.surface_size);
            }
            self.params = params;
            self.target_width = params.canvas_size.width.ceil_to_u64();
            self.target_height = params.canvas_size.height.ceil_to_u64();
        }
        Ok(())
    }

    fn canvas_size(&self) -> RatSize {
        self.params.canvas_size
    }

    fn scale_factor(&self) -> Vector {
        self.params.scale_factor
    }

    fn window_viewport(&self) -> Rect {
        self.params.window_viewport
    }

    fn convert_to_canvas_position(&self, window_position: Vector) -> Vector {
        proof {
            lemma_model_wf(self.policy, self.surface_size);
        }
        self.params.convert_to_canvas_position(window_position)
    }

    fn convert_to_window_position(&self, canvas_position: Vector) -> Vector {
        self.params.convert_to_window_position(canvas_position)
    }

    fn begin(&mut self, surface: Size) -> Result<(), MisuseFault> {
        if self.locked {
            return Err(MisuseFault::AdapterLocked);
        }
        if self.surface_size != surface {
            self.surface_size = surface;
            let params = self.policy.calculate_params(self.surface_size);
            proof {
                lemma_canvas_size_bounds(self.policy, self.surface_size);
            }
            self.params = params;
            self.target_width = params.canvas_size.width.ceil_to_u64();
            self.target_height = params.canvas_size.height.ceil_to_u64();
        }
        self.locked = true;
        Ok(())
    }

    fn clear(&self, color: Color) -> Result<ClearCommand, MisuseFault> {
        if !self.locked {
            return Err(MisuseFault::AdapterUnlocked);
        }
        Ok(
            ClearCommand {
                area: Rect::new(
                    Rat::of_int(0),
                    Rat::of_int(0),
                    self.params.canvas_size.width,
                    self.params.canvas_size.height,
                ),
                color,
            },
        )
    }

    fn end(&mut self) -> Result<(), MisuseFault> {
        if !self.locked {
            return Err(MisuseFault::AdapterUnlocked);
        }
        self.locked = false;
        Ok(())
    }
}

} // verus!
