//! The plain-data types of the replay framework's fetch requests, laid out
//! as the framework reads them.

use vstd::prelude::*;

verus! {

/// A 3D size, as the framework's requests carry it.
#[derive(Debug, Clone, Copy, PartialEq, Eq, Structural)]
pub struct GTSize {
    /// Width.
    pub width: u64,
    /// Height.
    pub height: u64,
    /// Depth.
    pub depth: u64,
}

/// A 3D point, as the framework's requests carry it.
#[derive(Debug, Clone, Copy, PartialEq, Eq, Structural)]
pub struct GTPoint3D {
    /// X.
    pub x: u64,
    /// Y.
    pub y: u64,
    /// Z.
    pub z: u64,
}

/// A 3D region: an origin and a size.
#[derive(Debug, Clone, Copy, PartialEq, Eq, Structural)]
pub struct GTRegion {
    /// The origin.
    pub origin: GTPoint3D,
    /// The size.
    pub size: GTSize,
}

/// A draw's dispatch uid, as the framework's wireframe request carries it.
#[derive(Debug, Clone, Copy, PartialEq, Eq, Structural)]
pub struct DispatchUid(pub u64);

} // verus!
