//! Fetch request shapes: what to fetch, and the region, plane, slice and
//! level of a texture fetch.

pub use crate::sys::replay::DispatchUid;
use crate::sys::replay::{GTPoint3D, GTRegion, GTSize};
use vstd::prelude::*;

verus! {

/// A 3D point (texels).
#[derive(Debug, Clone, Copy, PartialEq, Eq, Structural)]
pub struct Point3D {
    /// X.
    pub x: u64,
    /// Y.
    pub y: u64,
    /// Z.
    pub z: u64,
}

impl Default for Point3D {
    fn default() -> (r: Point3D)
        ensures
            r == (Point3D { x: 0, y: 0, z: 0 }),
    {
        Point3D { x: 0, y: 0, z: 0 }
    }
}

/// A 2D size (texels).
#[derive(Debug, Clone, Copy, PartialEq, Eq, Structural)]
pub struct Size {
    /// Width.
    pub width: u64,
    /// Height.
    pub height: u64,
}

impl Default for Size {
    fn default() -> (r: Size)
        ensures
            r == (Size { width: 0, height: 0 }),
    {
        Size { width: 0, height: 0 }
    }
}

/// A region: an origin and a size. The zero region selects the texture's
/// natural extent.
#[derive(Debug, Clone, Copy, PartialEq, Eq, Structural)]
pub struct Region {
    /// The origin.
    pub origin: Point3D,
    /// The size.
    pub size: Size,
}

impl Default for Region {
    fn default() -> (r: Region)
        ensures
            r == Region::spec_zero(),
    {
        Region::zero()
    }
}

impl Region {
    /// The zero region.
    pub open spec fn spec_zero() -> Region {
        Region { origin: Point3D { x: 0, y: 0, z: 0 }, size: Size { width: 0, height: 0 } }
    }

    /// The zero region: the texture's natural extent.
    pub fn zero() -> (r: Region)
        ensures
            r == Region::spec_zero(),
    {
        Region { origin: Point3D { x: 0, y: 0, z: 0 }, size: Size { width: 0, height: 0 } }
    }

    /// The region as the framework's request carries it: the same origin
    /// and width and height, with depth forced to 1.
    pub fn to_gt(self) -> (r: GTRegion)
        ensures
            r.origin == (GTPoint3D { x: self.origin.x, y: self.origin.y, z: self.origin.z }),
            r.size == (GTSize { width: self.size.width, height: self.size.height, depth: 1 }),
    {
        GTRegion {
            origin: GTPoint3D { x: self.origin.x, y: self.origin.y, z: self.origin.z },
            size: GTSize { width: self.size.width, height: self.size.height, depth: 1 },
        }
    }
}

/// One texture fetch.
#[derive(Debug, Clone, Copy)]
pub struct TextureRequest {
    /// The texture's stream reference.
    pub stream_ref: u64,
    /// The region to fetch; the zero region is the natural extent.
    pub region: Region,
    /// The plane (a depth or stencil aspect, or a YCbCr plane).
    pub plane: u32,
    /// The array slice.
    pub slice: u32,
    /// The mip level.
    pub level: u32,
}

impl TextureRequest {
    /// The whole texture: zero region, plane, slice and level 0.
    pub fn natural(stream_ref: u64) -> (r: TextureRequest)
        ensures
            r.stream_ref == stream_ref,
            r.region == Region::spec_zero(),
            r.plane == 0,
            r.slice == 0,
            r.level == 0,
    {
        TextureRequest { stream_ref, region: Region::zero(), plane: 0, slice: 0, level: 0 }
    }

    /// A region of one plane, at slice and level 0.
    pub fn new(stream_ref: u64, region: Region, plane: u32) -> (r: TextureRequest)
        ensures
            r.stream_ref == stream_ref,
            r.region == region,
            r.plane == plane,
            r.slice == 0,
            r.level == 0,
    {
        TextureRequest { stream_ref, region, plane, slice: 0, level: 0 }
    }

    /// The same request at the given slice and level.
    pub fn with_slice_level(self, slice: u32, level: u32) -> (r: TextureRequest)
        ensures
            r.stream_ref == self.stream_ref,
            r.region == self.region,
            r.plane == self.plane,
            r.slice == slice,
            r.level == level,
    {
        TextureRequest { slice, level, ..self }
    }
}

/// One wireframe fetch.
#[derive(Debug, Clone, Copy)]
pub struct WireframeRequest {
    /// The draw's dispatch uid.
    pub dispatch_uid: DispatchUid,
    /// Whether to rasterize solid rather than as lines.
    pub solid: bool,
}

} // verus!
