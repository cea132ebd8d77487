//! The shared vocabulary of primitives and materials.
//!
//! The primitives themselves (shapes, their bounds, the ray intersections)
//! compute in floating point and live with the driver; what the library
//! fixes here is the vocabulary their interfaces share.

use vstd::prelude::*;

verus! {

/// A light bound to the surface of a shape. The sampling interface is the
/// driver's floating-point work; the marker ties area lights to the
/// primitives that own them.
pub trait AreaLight {
}

/// Whether a path carries radiance from the lights or importance from the
/// camera; the distinction scales specular transmission.
#[derive(Debug, Clone, Copy, PartialEq, Eq, Structural)]
pub enum TransportMode {
    Radiance,
    Importance,
}

} // verus!
