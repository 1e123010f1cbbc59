//! The descriptor of a live replay texture, as the replayer's own texture
//! object reports it.

use vstd::prelude::*;

verus! {

/// A live texture's descriptor.
#[derive(Debug, Clone, Copy, PartialEq, Eq, Structural)]
pub struct TextureDescriptor {
    /// The texture's stream reference.
    pub stream_ref: u64,
    /// Width in pixels.
    pub width: u32,
    /// Height in pixels.
    pub height: u32,
    /// Depth in pixels.
    pub depth: u32,
    /// The raw `MTLPixelFormat` code.
    pub pixel_format: u32,
    /// The raw `MTLTextureType` code.
    pub texture_type: u32,
    /// Mip level count.
    pub mip_levels: u32,
    /// Array length.
    pub array_length: u32,
    /// Sample count.
    pub sample_count: u32,
    /// The raw `MTLTextureUsage` bits.
    pub usage: u64,
}

impl TextureDescriptor {
    /// The descriptor of a texture whose properties read as given (each
    /// narrowed to the field's width, as the texture object reports them
    /// wider).
    pub fn from_properties(
        stream_ref: u64,
        width: usize,
        height: usize,
        depth: usize,
        pixel_format: usize,
        texture_type: usize,
        mip_levels: usize,
        array_length: usize,
        sample_count: usize,
        usage: usize,
    ) -> (d: TextureDescriptor)
        ensures
            d.stream_ref == stream_ref,
            d.width == width as u32,
            d.height == height as u32,
            d.depth == depth as u32,
            d.pixel_format == pixel_format as u32,
            d.texture_type == texture_type as u32,
            d.mip_levels == mip_levels as u32,
            d.array_length == array_length as u32,
            d.sample_count == sample_count as u32,
            d.usage == usage as u64,
    {
        TextureDescriptor {
            stream_ref,
            width: width as u32,
            height: height as u32,
            depth: depth as u32,
            pixel_format: pixel_format as u32,
            texture_type: texture_type as u32,
            mip_levels: mip_levels as u32,
            array_length: array_length as u32,
            sample_count: sample_count as u32,
            usage: usage as u64,
        }
    }
}

} // verus!
