//! The shared contract of a resolution adapter.
//!
//! An adapter is a session object around the policy math: it caches the
//! parameters derived from the current policy and the last measured surface
//! size, and guards the per-frame render bracket with a lock.  `begin`
//! locks, `end` unlocks; state mutators are legal only while unlocked and
//! `clear` only while locked.  Misuse does not panic: it is reported as a
//! `MisuseFault` value, stated exactly in the contracts.
//!
//! The adapter decides; the embedding renderer performs.  `begin`, `clear`
//! and `end` update or check the session state and hand back what must be
//! drawn (for `clear`, the fill area in canvas coordinates); submitting the
//! actual draw calls is outside this crate.

use vstd::prelude::*;
use crate::color::Color;
use crate::geometry::{Rect, RatSize, Size, Vector};
use crate::params::ResolutionAdaptParams;
use crate::policy::{model_of, ResolutionPolicy};

verus! {

/// Misuse of the adapter's state machine: the programming-error class of
/// failure, reported to the caller instead of panicking.
#[derive(Clone, Copy, Debug, PartialEq, Eq, Structural)]
pub enum MisuseFault {
    /// A state mutator (`set_policy`, `measure`, `begin`) was called
    /// between `begin` and `end`.
    AdapterLocked,
    /// A render operation (`clear`, `end`) was called outside a
    /// `begin` .. `end` bracket.
    AdapterUnlocked,
}

/// What a legal `clear` call asks the renderer to do: fill `area` (in
/// canvas coordinates) with `color`.
#[derive(Clone, Copy, Debug, PartialEq, Eq, Structural)]
pub struct ClearCommand {
    pub area: Rect,
    pub color: Color,
}

/// A stateful resolution-adaptation session: current policy, last measured
/// surface size, cached derived parameters, and the render-bracket lock.
pub trait ResolutionAdapter: Sized {
    spec fn policy_spec(&self) -> ResolutionPolicy;

    spec fn surface_spec(&self) -> Size;

    spec fn params_spec(&self) -> ResolutionAdaptParams;

    spec fn locked_spec(&self) -> bool;

    /// Internal consistency: the cached parameters are exactly the current
    /// policy applied to the last measured surface size.
    spec fn inv(&self) -> bool;

    proof fn inv_properties(&self)
        requires
            self.inv(),
        ensures
            self.policy_spec().wf(),
            self.surface_spec().positive(),
            self.params_spec()@ == model_of(self.policy_spec(), self.surface_spec()),
            self.params_spec().wf(),
    ;

    /// The current policy.
    fn policy(&self) -> (p: ResolutionPolicy)
        requires
            self.inv(),
        ensures
            p == self.policy_spec(),
    ;

    /// Replaces the policy and recomputes the cached parameters.  Rejected
    /// while the adapter is locked.
    fn set_policy(&mut self, policy: ResolutionPolicy) -> (r: Result<(), MisuseFault>)
        requires
            old(self).inv(),
            policy.wf(),
        ensures
            final(self).inv(),
            old(self).locked_spec() ==> r == Err::<(), MisuseFault>(MisuseFault::AdapterLocked)
                && *final(self) == *old(self),
            !old(self).locked_spec() ==> r == Ok::<(), MisuseFault>(())
                && final(self).policy_spec() == policy
                && final(self).surface_spec() == old(self).surface_spec()
                && !final(self).locked_spec(),
    ;

    /// Re-reads the surface size and recomputes the cached parameters if it
    /// changed.  Rejected while the adapter is locked.
    fn measure(&mut self, surface: Size) -> (r: Result<(), MisuseFault>)
        requires
            old(self).inv(),
            surface.positive(),
        ensures
            final(self).inv(),
            old(self).locked_spec() ==> r == Err::<(), MisuseFault>(MisuseFault::AdapterLocked)
                && *final(self) == *old(self),
            !old(self).locked_spec() ==> r == Ok::<(), MisuseFault>(())
                && final(self).surface_spec() == surface
                && final(self).policy_spec() == old(self).policy_spec()
                && !final(self).locked_spec(),
    ;

    /// The logical canvas size derived from the current policy.
    fn canvas_size(&self) -> (s: RatSize)
        requires
            self.inv(),
        ensures
            s == self.params_spec().canvas_size,
    ;

    /// The per-axis multiplier from canvas units to surface pixels.
    fn scale_factor(&self) -> (v: Vector)
        requires
            self.inv(),
        ensures
            v == self.params_spec().scale_factor,
    ;

    /// The rectangle of the surface that the canvas occupies.
    fn window_viewport(&self) -> (v: Rect)
        requires
            self.inv(),
        ensures
            v == self.params_spec().window_viewport,
    ;

    /// Maps a surface position into canvas coordinates.
    fn convert_to_canvas_position(&self, window_position: Vector) -> (r: Vector)
        requires
            self.inv(),
            window_position.wf(),
            self.params_spec().to_canvas_fits(window_position),
        ensures
            r.x@ == self.params_spec()@.to_canvas_x(window_position.x@),
            r.y@ == self.params_spec()@.to_canvas_y(window_position.y@),
            r.wf(),
    ;

    /// Maps a canvas position back onto the surface.
    fn convert_to_window_position(&self, canvas_position: Vector) -> (r: Vector)
        requires
            self.inv(),
            canvas_position.wf(),
            self.params_spec().to_window_fits(canvas_position),
        ensures
            r.x@ == self.params_spec()@.to_window_x(canvas_position.x@),
            r.y@ == self.params_spec()@.to_window_y(canvas_position.y@),
            r.wf(),
    ;

    /// Opens the render bracket: measures the surface, then locks.
    /// Rejected while already locked.
    fn begin(&mut self, surface: Size) -> (r: Result<(), MisuseFault>)
        requires
            old(self).inv(),
            surface.positive(),
        ensures
            final(self).inv(),
            old(self).locked_spec() ==> r == Err::<(), MisuseFault>(MisuseFault::AdapterLocked)
                && *final(self) == *old(self),
            !old(self).locked_spec() ==> r == Ok::<(), MisuseFault>(())
                && final(self).surface_spec() == surface
                && final(self).policy_spec() == old(self).policy_spec()
                && final(self).locked_spec(),
    ;

    /// Asks for the whole canvas to be filled with `color`.  Legal only
    /// inside the render bracket.
    fn clear(&self, color: Color) -> (r: Result<ClearCommand, MisuseFault>)
        requires
            self.inv(),
        ensures
            !self.locked_spec() ==> r == Err::<ClearCommand, MisuseFault>(
                MisuseFault::AdapterUnlocked,
            ),
            self.locked_spec() ==> (r matches Ok(c) && c.area.x@ == (0int, 1int) && c.area.y@ == (
            0int, 1int) && c.area.width == self.params_spec().canvas_size.width && c.area.height
                == self.params_spec().canvas_size.height && c.color == color),
    ;

    /// Closes the render bracket and unlocks.  Rejected while unlocked.
    fn end(&mut self) -> (r: Result<(), MisuseFault>)
        requires
            old(self).inv(),
        ensures
            final(self).inv(),
            !old(self).locked_spec() ==> r == Err::<(), MisuseFault>(MisuseFault::AdapterUnlocked)
                && *final(self) == *old(self),
            old(self).locked_spec() ==> r == Ok::<(), MisuseFault>(())
                && !final(self).locked_spec()
                && final(self).policy_spec() == old(self).policy_spec()
                && final(self).surface_spec() == old(self).surface_spec()
                && final(self).params_spec() == old(self).params_spec(),
    ;
}

} // verus!
