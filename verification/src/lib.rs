//! Core of an offline, physically based ray tracer: the verified logic behind
//! the scene-description state machine, the statistics accumulator, the
//! tile work queue, the parameter sets, the MIP-map pyramid and the BSDF
//! lobe-type algebra.
//!
//! Floating-point numerics (shading arithmetic, filter kernels, Fresnel
//! terms) and the I/O around the renderer live outside this library; the
//! decisions and the integer index computations they rest on live here,
//! with contracts.

pub mod api;
pub mod block_queue;
pub mod bsdf;
pub mod display;
pub mod integrator;
pub mod mipmap;
pub mod paramset;
pub mod primitive;
pub mod registry;
pub mod stats;
