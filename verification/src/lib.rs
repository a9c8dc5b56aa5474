//! Verified core of a resolution-adaptation and sprite-animation layer for a
//! 2D rendering application.
//!
//! The library keeps a fixed "design" coordinate space independent of the
//! real, resizable output surface.  All geometry is carried as exact rational
//! numbers, so the scale factors, viewports and coordinate conversions are
//! computed and specified without rounding.  Drawing itself (GPU submission,
//! window plumbing) is left to the embedding application; this crate computes
//! and proves the decisions: which canvas size, which scale, which viewport,
//! which frame of an animation is visible, and when a render-bracket call is
//! legal.

pub mod rational;
pub mod geometry;
pub mod color;
pub mod policy;
pub mod params;
pub mod adapter;
pub mod canvas_adapter;
pub mod transform_adapter;
pub mod frame;
pub mod sprite;
pub mod animation;
