//! Direct-lighting integrator configuration.
//!
//! The radiance computation itself works on floating-point spectra and rays
//! and therefore stands outside this library; the strategy choice and the
//! recursion budget are plain data with exact contracts.

use vstd::prelude::*;

verus! {

/// Strategy to use for sampling lights.
#[derive(Debug, Clone, Copy, PartialEq, Eq, Structural)]
pub enum LightStrategy {
    /// For each pixel sample, sample every light in the scene.
    UniformSampleAll,
    /// For each pixel sample, only sample one light from the scene, chosen at random.
    UniformSampleOne,
}

/// Integrator that only takes into account direct lighting, i.e. no global
/// illumination. It is very similar to the Whitted integrator but has a
/// better light sampling strategy.
pub struct DirectLightingIntegrator {
    /// The strategy to use to sample lights.
    pub light_strategy: LightStrategy,
    /// Maximum number of times a ray can bounce before terminating.
    pub max_ray_depth: u8,
}

impl DirectLightingIntegrator {
    pub fn new(n: u8) -> (r: DirectLightingIntegrator)
        ensures
            r.max_ray_depth == n,
            r.light_strategy == LightStrategy::UniformSampleOne,
    {
        DirectLightingIntegrator { max_ray_depth: n, light_strategy: LightStrategy::UniformSampleOne }
    }
}

} // verus!
