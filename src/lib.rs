//! Scene model and hit bookkeeping of a ray tracer whose evaluation code is
//! shared between a general-purpose processor and a compute processor.
//!
//! Scalars that the renderer computes with are held here as their IEEE 754
//! binary32 bit patterns (see [`scalar`]); the library orders, compares and
//! range-checks them, while the arithmetic on them stays with the renderer.
//!
//! - [`intersections`]: the fixed-capacity, always sorted buffer of the hits
//!   of one ray, and the choice of the visible hit.
//! - [`scene`] and [`world`]: materials, patterns, shapes, lights and the
//!   camera, the scene that indexes them, and its read-only view.
//! - [`shading`]: which colour of a pattern a point takes, and how far
//!   reflections are followed.
//! - [`timer`] and [`controller`]: frame statistics and the camera's
//!   movement keys.
pub mod scalar;
pub mod transform;
pub mod intersections;
pub mod scene;
pub mod world;
pub mod shading;
pub mod timer;
pub mod controller;

pub use scalar::{greater_or_equal, in_unit_range, less_than, non_negative};
