//! `MTLPixelFormat` metadata: structural decomposition of colour,
//! depth/stencil and block-compressed formats, keyed by the raw format code.

use vstd::prelude::*;

verus! {

/// The structural interpretation of an `MTLPixelFormat`.
#[derive(Debug, Clone, PartialEq, Eq)]
pub enum FormatKind {
    /// Ordinary or packed colour.
    Color(ColorFormat),
    /// Depth and/or stencil.
    DepthStencil(DepthStencilFormat),
    /// Block-compressed (descriptive; `Texture::blocks` yields raw blocks).
    Compressed(CompressedFormat),
    /// A format the table does not describe. Raw bytes are still available.
    Unknown,
}

/// Colour format: channels (memory order), numeric encoding, transfer, stride.
#[derive(Debug, Clone, PartialEq, Eq)]
pub struct ColorFormat {
    /// Channels in memory order (ordinary and packed both fit).
    pub channels: Vec<Channel>,
    /// Numeric encoding, uniform across channels.
    pub numeric: NumericKind,
    /// The sRGB transfer flag (`_sRGB` variants). Orthogonal to `numeric`.
    pub srgb: bool,
    /// Total bytes per pixel.
    pub bytes_per_pixel: usize,
    /// All channels equal width and a multiple of 8 (clean typed cast).
    pub byte_aligned: bool,
}

/// One channel: which component, how many bits.
#[derive(Debug, Clone, Copy, PartialEq, Eq)]
pub struct Channel {
    /// Which colour component this channel carries.
    pub component: Component,
    /// Width of the channel, in bits.
    pub bits: u8,
}

/// A colour component.
#[derive(Debug, Clone, Copy, PartialEq, Eq)]
pub enum Component {
    /// Red.
    R,
    /// Green.
    G,
    /// Blue.
    B,
    /// Alpha.
    A,
}

/// The numeric encoding of a colour channel.
#[derive(Debug, Clone, Copy, PartialEq, Eq)]
pub enum NumericKind {
    /// Unsigned normalized (`[0, 1]`).
    Unorm,
    /// Signed normalized (`[-1, 1]`).
    Snorm,
    /// Floating point.
    Float,
    /// Unsigned integer.
    Uint,
    /// Signed integer.
    Sint,
    /// Shared-exponent floating point (e.g. `RGB9E5Float`).
    SharedExponent,
}

/// Depth and/or stencil format.
#[derive(Debug, Clone, Copy, PartialEq, Eq)]
pub struct DepthStencilFormat {
    /// The depth aspect, if present.
    pub depth: Option<DepthKind>,
    /// The stencil aspect, if present.
    pub stencil: Option<StencilKind>,
    /// Bytes per pixel (includes any X-padding).
    pub bytes_per_pixel: usize,
}

/// Depth encoding.
#[derive(Debug, Clone, Copy, PartialEq, Eq)]
pub enum DepthKind {
    /// 16-bit unsigned normalized depth.
    Unorm16,
    /// 32-bit floating point depth.
    Float32,
}

/// Stencil encoding.
#[derive(Debug, Clone, Copy, PartialEq, Eq)]
pub enum StencilKind {
    /// 8-bit unsigned integer stencil.
    Uint8,
}

/// Block-compressed format geometry.
#[derive(Debug, Clone, Copy, PartialEq, Eq)]
pub struct CompressedFormat {
    /// The compression scheme.
    pub scheme: CompressionScheme,
    /// Texels per block (e.g. `(4, 4)`).
    pub block: (u8, u8),
    /// Bytes per block.
    pub block_bytes: u8,
    /// The sRGB transfer flag.
    pub srgb: bool,
}

/// A block-compression scheme.
#[derive(Debug, Clone, Copy, PartialEq, Eq)]
pub enum CompressionScheme {
    /// Adaptive Scalable Texture Compression.
    Astc,
    /// Ericsson Texture Compression 2.
    Etc2,
    /// Ericsson Alpha Compression (paired with ETC2 for alpha/single channels).
    Eac,
    /// PowerVR Texture Compression.
    Pvrtc,
    /// Block Compression (DirectX-style BCn).
    Bc,
    /// A scheme not otherwise distinguished by this table.
    Other,
}

/// The mathematical content of a [`ColorFormat`]: its channels as a sequence.
pub struct ColorFormatView {
    pub channels: Seq<Channel>,
    pub numeric: NumericKind,
    pub srgb: bool,
    pub bytes_per_pixel: usize,
    pub byte_aligned: bool,
}

/// The mathematical content of a [`FormatKind`].
pub enum FormatKindView {
    Color(ColorFormatView),
    DepthStencil(DepthStencilFormat),
    Compressed(CompressedFormat),
    Unknown,
}

impl View for ColorFormat {
    type V = ColorFormatView;

    open spec fn view(&self) -> ColorFormatView {
        ColorFormatView {
            channels: self.channels@,
            numeric: self.numeric,
            srgb: self.srgb,
            bytes_per_pixel: self.bytes_per_pixel,
            byte_aligned: self.byte_aligned,
        }
    }
}

impl View for FormatKind {
    type V = FormatKindView;

    open spec fn view(&self) -> FormatKindView {
        match self {
            FormatKind::Color(c) => FormatKindView::Color(c@),
            FormatKind::DepthStencil(d) => FormatKindView::DepthStencil(*d),
            FormatKind::Compressed(k) => FormatKindView::Compressed(*k),
            FormatKind::Unknown => FormatKindView::Unknown,
        }
    }
}

impl FormatKindView {
    /// A single-aspect depth/stencil format: exactly one of depth and stencil.
    pub open spec fn is_single_aspect(self) -> bool {
        self matches FormatKindView::DepthStencil(d) && (d.depth is Some) != (d.stencil is Some)
    }

    pub open spec fn is_combined(self) -> bool {
        self matches FormatKindView::DepthStencil(d) && d.depth is Some && d.stencil is Some
    }

    pub open spec fn is_depth_only(self) -> bool {
        self matches FormatKindView::DepthStencil(d) && d.depth is Some && d.stencil is None
    }

    pub open spec fn is_stencil_only(self) -> bool {
        self matches FormatKindView::DepthStencil(d) && d.stencil is Some && d.depth is None
    }
}

impl FormatKind {
    /// Bytes per pixel, for `Color`/`DepthStencil` (`None` for compressed/unknown).
    pub fn bytes_per_pixel(&self) -> (r: Option<usize>)
        ensures
            r == (match self@ {
                FormatKindView::Color(c) => Some(c.bytes_per_pixel),
                FormatKindView::DepthStencil(d) => Some(d.bytes_per_pixel),
                _ => None,
            }),
    {
        match self {
            FormatKind::Color(c) => Some(c.bytes_per_pixel),
            FormatKind::DepthStencil(d) => Some(d.bytes_per_pixel),
            FormatKind::Compressed(_) | FormatKind::Unknown => None,
        }
    }

    /// Whether this format's pixels are byte-aligned and castable as a flat
    /// array: a byte-aligned colour format, or a single aspect (depth-only or
    /// stencil-only); combined depth+stencil is not.
    pub fn byte_aligned(&self) -> (r: bool)
        ensures
            r == (match self@ {
                FormatKindView::Color(c) => c.byte_aligned,
                FormatKindView::DepthStencil(_) => self@.is_single_aspect(),
                _ => false,
            }),
    {
        match self {
            FormatKind::Color(c) => c.byte_aligned,
            FormatKind::DepthStencil(d) => d.depth.is_some() != d.stencil.is_some(),
            FormatKind::Compressed(_) | FormatKind::Unknown => false,
        }
    }

    /// The sRGB transfer flag.
    pub fn is_srgb(&self) -> (r: bool)
        ensures
            r == (match self@ {
                FormatKindView::Color(c) => c.srgb,
                FormatKindView::Compressed(k) => k.srgb,
                _ => false,
            }),
    {
        match self {
            FormatKind::Color(c) => c.srgb,
            FormatKind::Compressed(k) => k.srgb,
            FormatKind::DepthStencil(_) | FormatKind::Unknown => false,
        }
    }

    /// True for a combined depth+stencil format (both a depth and a stencil
    /// aspect present, e.g. `Depth32Float_Stencil8`). The fetch serves such a
    /// resource's aspects as separate per-aspect textures, never the combined
    /// format, so a combined descriptor never exact-matches a fetched texture.
    pub fn is_combined_depth_stencil(&self) -> (r: bool)
        ensures
            r == self@.is_combined(),
    {
        match self {
            FormatKind::DepthStencil(d) => d.depth.is_some() && d.stencil.is_some(),
            _ => false,
        }
    }

    /// True for a depth-only format (a depth aspect, no stencil).
    pub fn is_depth_only(&self) -> (r: bool)
        ensures
            r == self@.is_depth_only(),
    {
        match self {
            FormatKind::DepthStencil(d) => d.depth.is_some() && d.stencil.is_none(),
            _ => false,
        }
    }

    /// True for a stencil-only format (a stencil aspect, no depth).
    pub fn is_stencil_only(&self) -> (r: bool)
        ensures
            r == self@.is_stencil_only(),
    {
        match self {
            FormatKind::DepthStencil(d) => d.stencil.is_some() && d.depth.is_none(),
            _ => false,
        }
    }
}

/// The channel layouts the format table is built from (memory order).
#[derive(Debug, Clone, Copy, PartialEq, Eq)]
pub enum Layout {
    A8,
    R8,
    RG8,
    RGBA8,
    BGRA8,
    R16,
    RG16,
    RGBA16,
    R32,
    RG32,
    RGBA32,
    B5G6R5,
    A1BGR5,
    ABGR4,
    BGR5A1,
    RGB10A2,
    BGR10A2,
    RG11B10,
    RGB9E5
}

/// The channels of each layout, in memory order.
pub open spec fn layout_channels(l: Layout) -> Seq<Channel> {
    match l {
        Layout::A8 => seq![Channel { component: Component::A, bits: 8 }],
        Layout::R8 => seq![Channel { component: Component::R, bits: 8 }],
        Layout::RG8 => seq![Channel { component: Component::R, bits: 8 }, Channel { component: Component::G, bits: 8 }],
        Layout::RGBA8 => seq![Channel { component: Component::R, bits: 8 }, Channel { component: Component::G, bits: 8 }, Channel { component: Component::B, bits: 8 }, Channel { component: Component::A, bits: 8 }],
        Layout::BGRA8 => seq![Channel { component: Component::B, bits: 8 }, Channel { component: Component::G, bits: 8 }, Channel { component: Component::R, bits: 8 }, Channel { component: Component::A, bits: 8 }],
        Layout::R16 => seq![Channel { component: Component::R, bits: 16 }],
        Layout::RG16 => seq![Channel { component: Component::R, bits: 16 }, Channel { component: Component::G, bits: 16 }],
        Layout::RGBA16 => seq![Channel { component: Component::R, bits: 16 }, Channel { component: Component::G, bits: 16 }, Channel { component: Component::B, bits: 16 }, Channel { component: Component::A, bits: 16 }],
        Layout::R32 => seq![Channel { component: Component::R, bits: 32 }],
        Layout::RG32 => seq![Channel { component: Component::R, bits: 32 }, Channel { component: Component::G, bits: 32 }],
        Layout::RGBA32 => seq![Channel { component: Component::R, bits: 32 }, Channel { component: Component::G, bits: 32 }, Channel { component: Component::B, bits: 32 }, Channel { component: Component::A, bits: 32 }],
        Layout::B5G6R5 => seq![Channel { component: Component::B, bits: 5 }, Channel { component: Component::G, bits: 6 }, Channel { component: Component::R, bits: 5 }],
        Layout::A1BGR5 => seq![Channel { component: Component::A, bits: 1 }, Channel { component: Component::B, bits: 5 }, Channel { component: Component::G, bits: 5 }, Channel { component: Component::R, bits: 5 }],
        Layout::ABGR4 => seq![Channel { component: Component::A, bits: 4 }, Channel { component: Component::B, bits: 4 }, Channel { component: Component::G, bits: 4 }, Channel { component: Component::R, bits: 4 }],
        Layout::BGR5A1 => seq![Channel { component: Component::B, bits: 5 }, Channel { component: Component::G, bits: 5 }, Channel { component: Component::R, bits: 5 }, Channel { component: Component::A, bits: 1 }],
        Layout::RGB10A2 => seq![Channel { component: Component::R, bits: 10 }, Channel { component: Component::G, bits: 10 }, Channel { component: Component::B, bits: 10 }, Channel { component: Component::A, bits: 2 }],
        Layout::BGR10A2 => seq![Channel { component: Component::B, bits: 10 }, Channel { component: Component::G, bits: 10 }, Channel { component: Component::R, bits: 10 }, Channel { component: Component::A, bits: 2 }],
        Layout::RG11B10 => seq![Channel { component: Component::R, bits: 11 }, Channel { component: Component::G, bits: 11 }, Channel { component: Component::B, bits: 10 }],
        Layout::RGB9E5 => seq![Channel { component: Component::R, bits: 9 }, Channel { component: Component::G, bits: 9 }, Channel { component: Component::B, bits: 9 }],
    }
}

/// Builds a channel.
pub fn ch(component: Component, bits: u8) -> (c: Channel)
    ensures
        c == (Channel { component, bits }),
{
    Channel { component, bits }
}

fn channels_of(l: Layout) -> (v: Vec<Channel>)
    ensures
        v@ == layout_channels(l),
        v@.len() <= 4,
{
    let v = match l {
        Layout::A8 => vec![ch(Component::A, 8)],
        Layout::R8 => vec![ch(Component::R, 8)],
        Layout::RG8 => vec![ch(Component::R, 8), ch(Component::G, 8)],
        Layout::RGBA8 => vec![ch(Component::R, 8), ch(Component::G, 8), ch(Component::B, 8), ch(Component::A, 8)],
        Layout::BGRA8 => vec![ch(Component::B, 8), ch(Component::G, 8), ch(Component::R, 8), ch(Component::A, 8)],
        Layout::R16 => vec![ch(Component::R, 16)],
        Layout::RG16 => vec![ch(Component::R, 16), ch(Component::G, 16)],
        Layout::RGBA16 => vec![ch(Component::R, 16), ch(Component::G, 16), ch(Component::B, 16), ch(Component::A, 16)],
        Layout::R32 => vec![ch(Component::R, 32)],
        Layout::RG32 => vec![ch(Component::R, 32), ch(Component::G, 32)],
        Layout::RGBA32 => vec![ch(Component::R, 32), ch(Component::G, 32), ch(Component::B, 32), ch(Component::A, 32)],
        Layout::B5G6R5 => vec![ch(Component::B, 5), ch(Component::G, 6), ch(Component::R, 5)],
        Layout::A1BGR5 => vec![ch(Component::A, 1), ch(Component::B, 5), ch(Component::G, 5), ch(Component::R, 5)],
        Layout::ABGR4 => vec![ch(Component::A, 4), ch(Component::B, 4), ch(Component::G, 4), ch(Component::R, 4)],
        Layout::BGR5A1 => vec![ch(Component::B, 5), ch(Component::G, 5), ch(Component::R, 5), ch(Component::A, 1)],
        Layout::RGB10A2 => vec![ch(Component::R, 10), ch(Component::G, 10), ch(Component::B, 10), ch(Component::A, 2)],
        Layout::BGR10A2 => vec![ch(Component::B, 10), ch(Component::G, 10), ch(Component::R, 10), ch(Component::A, 2)],
        Layout::RG11B10 => vec![ch(Component::R, 11), ch(Component::G, 11), ch(Component::B, 10)],
        Layout::RGB9E5 => vec![ch(Component::R, 9), ch(Component::G, 9), ch(Component::B, 9)],
    };
    assert(v@ =~= layout_channels(l));
    v
}

/// Total bits over a sequence of channels.
pub open spec fn total_bits(s: Seq<Channel>) -> nat
    decreases s.len(),
{
    if s.len() == 0 {
        0
    } else {
        total_bits(s.drop_last()) + s.last().bits as nat
    }
}

/// Every channel has the width of the first, and that width is whole bytes.
pub open spec fn uniform_whole_bytes(s: Seq<Channel>) -> bool {
    forall|i: int| 0 <= i < s.len() ==> #[trigger] s[i].bits == s[0].bits && s[i].bits % 8 == 0
}

/// A colour format built from ordinary channels: the stride is the channels'
/// total width in whole bytes, and it is byte-aligned when every channel has
/// the same whole-byte width.
pub open spec fn spec_color(channels: Seq<Channel>, numeric: NumericKind, srgb: bool) -> ColorFormatView {
    ColorFormatView {
        channels,
        numeric,
        srgb,
        bytes_per_pixel: (total_bits(channels) / 8) as usize,
        byte_aligned: uniform_whole_bytes(channels),
    }
}

proof fn lemma_total_bits_bound(s: Seq<Channel>)
    ensures
        total_bits(s) <= 255 * s.len(),
    decreases s.len(),
{
    if s.len() > 0 {
        lemma_total_bits_bound(s.drop_last());
    }
}

/// Build a `ColorFormat` from ordinary channels: `bytes_per_pixel` and
/// `byte_aligned` are derived from the channel widths. Not valid for formats
/// with bits outside the listed channels (e.g. `RGB9E5Float`'s shared
/// exponent) - those are constructed directly.
fn color(channels: Vec<Channel>, numeric: NumericKind, srgb: bool) -> (c: ColorFormat)
    requires
        channels@.len() <= 4,
    ensures
        c@ == spec_color(channels@, numeric, srgb),
{
    let n = channels.len();
    let mut total: u32 = 0;
    let mut aligned = true;
    let mut i: usize = 0;
    while i < n
        invariant
            n == channels@.len(),
            n <= 4,
            i <= n,
            total == total_bits(channels@.take(i as int)),
            aligned == (forall|j: int|
                0 <= j < i ==> #[trigger] channels@[j].bits == channels@[0].bits
                    && channels@[j].bits % 8 == 0),
        decreases n - i,
    {
        proof {
            assert(channels@.take(i as int + 1).drop_last() =~= channels@.take(i as int));
            lemma_total_bits_bound(channels@.take(i as int));
        }
        let b = channels[i].bits;
        if !(b == channels[0].bits && b % 8 == 0) {
            aligned = false;
        }
        total = total + b as u32;
        i = i + 1;
    }
    assert(channels@.take(n as int) =~= channels@);
    proof {
        lemma_total_bits_bound(channels@);
    }
    ColorFormat {
        channels,
        numeric,
        srgb,
        bytes_per_pixel: (total / 8) as usize,
        byte_aligned: aligned,
    }
}

/// The structural interpretation of every format code the table describes;
/// [`FormatKindView::Unknown`] for any other code.
pub open spec fn spec_format_kind(raw: u32) -> FormatKindView {
    match raw {
        1 => FormatKindView::Color(spec_color(layout_channels(Layout::A8), NumericKind::Unorm, false)),  // A8Unorm
        10 => FormatKindView::Color(spec_color(layout_channels(Layout::R8), NumericKind::Unorm, false)),  // R8Unorm
        11 => FormatKindView::Color(spec_color(layout_channels(Layout::R8), NumericKind::Unorm, true)),  // R8Unorm_sRGB
        12 => FormatKindView::Color(spec_color(layout_channels(Layout::R8), NumericKind::Snorm, false)),  // R8Snorm
        13 => FormatKindView::Color(spec_color(layout_channels(Layout::R8), NumericKind::Uint, false)),  // R8Uint
        14 => FormatKindView::Color(spec_color(layout_channels(Layout::R8), NumericKind::Sint, false)),  // R8Sint
        20 => FormatKindView::Color(spec_color(layout_channels(Layout::R16), NumericKind::Unorm, false)),  // R16Unorm
        22 => FormatKindView::Color(spec_color(layout_channels(Layout::R16), NumericKind::Snorm, false)),  // R16Snorm
        23 => FormatKindView::Color(spec_color(layout_channels(Layout::R16), NumericKind::Uint, false)),  // R16Uint
        24 => FormatKindView::Color(spec_color(layout_channels(Layout::R16), NumericKind::Sint, false)),  // R16Sint
        25 => FormatKindView::Color(spec_color(layout_channels(Layout::R16), NumericKind::Float, false)),  // R16Float
        53 => FormatKindView::Color(spec_color(layout_channels(Layout::R32), NumericKind::Uint, false)),  // R32Uint
        54 => FormatKindView::Color(spec_color(layout_channels(Layout::R32), NumericKind::Sint, false)),  // R32Sint
        55 => FormatKindView::Color(spec_color(layout_channels(Layout::R32), NumericKind::Float, false)),  // R32Float
        30 => FormatKindView::Color(spec_color(layout_channels(Layout::RG8), NumericKind::Unorm, false)),  // RG8Unorm
        31 => FormatKindView::Color(spec_color(layout_channels(Layout::RG8), NumericKind::Unorm, true)),  // RG8Unorm_sRGB
        32 => FormatKindView::Color(spec_color(layout_channels(Layout::RG8), NumericKind::Snorm, false)),  // RG8Snorm
        33 => FormatKindView::Color(spec_color(layout_channels(Layout::RG8), NumericKind::Uint, false)),  // RG8Uint
        34 => FormatKindView::Color(spec_color(layout_channels(Layout::RG8), NumericKind::Sint, false)),  // RG8Sint
        60 => FormatKindView::Color(spec_color(layout_channels(Layout::RG16), NumericKind::Unorm, false)),  // RG16Unorm
        62 => FormatKindView::Color(spec_color(layout_channels(Layout::RG16), NumericKind::Snorm, false)),  // RG16Snorm
        63 => FormatKindView::Color(spec_color(layout_channels(Layout::RG16), NumericKind::Uint, false)),  // RG16Uint
        64 => FormatKindView::Color(spec_color(layout_channels(Layout::RG16), NumericKind::Sint, false)),  // RG16Sint
        65 => FormatKindView::Color(spec_color(layout_channels(Layout::RG16), NumericKind::Float, false)),  // RG16Float
        103 => FormatKindView::Color(spec_color(layout_channels(Layout::RG32), NumericKind::Uint, false)),  // RG32Uint
        104 => FormatKindView::Color(spec_color(layout_channels(Layout::RG32), NumericKind::Sint, false)),  // RG32Sint
        105 => FormatKindView::Color(spec_color(layout_channels(Layout::RG32), NumericKind::Float, false)),  // RG32Float
        40 => FormatKindView::Color(spec_color(layout_channels(Layout::B5G6R5), NumericKind::Unorm, false)),  // B5G6R5Unorm
        41 => FormatKindView::Color(spec_color(layout_channels(Layout::A1BGR5), NumericKind::Unorm, false)),  // A1BGR5Unorm
        42 => FormatKindView::Color(spec_color(layout_channels(Layout::ABGR4), NumericKind::Unorm, false)),  // ABGR4Unorm
        43 => FormatKindView::Color(spec_color(layout_channels(Layout::BGR5A1), NumericKind::Unorm, false)),  // BGR5A1Unorm
        70 => FormatKindView::Color(spec_color(layout_channels(Layout::RGBA8), NumericKind::Unorm, false)),  // RGBA8Unorm
        71 => FormatKindView::Color(spec_color(layout_channels(Layout::RGBA8), NumericKind::Unorm, true)),  // RGBA8Unorm_sRGB
        72 => FormatKindView::Color(spec_color(layout_channels(Layout::RGBA8), NumericKind::Snorm, false)),  // RGBA8Snorm
        73 => FormatKindView::Color(spec_color(layout_channels(Layout::RGBA8), NumericKind::Uint, false)),  // RGBA8Uint
        74 => FormatKindView::Color(spec_color(layout_channels(Layout::RGBA8), NumericKind::Sint, false)),  // RGBA8Sint
        80 => FormatKindView::Color(spec_color(layout_channels(Layout::BGRA8), NumericKind::Unorm, false)),  // BGRA8Unorm
        81 => FormatKindView::Color(spec_color(layout_channels(Layout::BGRA8), NumericKind::Unorm, true)),  // BGRA8Unorm_sRGB
        90 => FormatKindView::Color(spec_color(layout_channels(Layout::RGB10A2), NumericKind::Unorm, false)),  // RGB10A2Unorm
        91 => FormatKindView::Color(spec_color(layout_channels(Layout::RGB10A2), NumericKind::Uint, false)),  // RGB10A2Uint
        92 => FormatKindView::Color(spec_color(layout_channels(Layout::RG11B10), NumericKind::Float, false)),  // RG11B10Float
        93 => FormatKindView::Color(ColorFormatView {
            channels: layout_channels(Layout::RGB9E5),
            numeric: NumericKind::SharedExponent,
            srgb: false,
            bytes_per_pixel: 4,
            byte_aligned: false,
        }),  // RGB9E5Float
        94 => FormatKindView::Color(spec_color(layout_channels(Layout::BGR10A2), NumericKind::Unorm, false)),  // BGR10A2Unorm
        110 => FormatKindView::Color(spec_color(layout_channels(Layout::RGBA16), NumericKind::Unorm, false)),  // RGBA16Unorm
        112 => FormatKindView::Color(spec_color(layout_channels(Layout::RGBA16), NumericKind::Snorm, false)),  // RGBA16Snorm
        113 => FormatKindView::Color(spec_color(layout_channels(Layout::RGBA16), NumericKind::Uint, false)),  // RGBA16Uint
        114 => FormatKindView::Color(spec_color(layout_channels(Layout::RGBA16), NumericKind::Sint, false)),  // RGBA16Sint
        115 => FormatKindView::Color(spec_color(layout_channels(Layout::RGBA16), NumericKind::Float, false)),  // RGBA16Float
        123 => FormatKindView::Color(spec_color(layout_channels(Layout::RGBA32), NumericKind::Uint, false)),  // RGBA32Uint
        124 => FormatKindView::Color(spec_color(layout_channels(Layout::RGBA32), NumericKind::Sint, false)),  // RGBA32Sint
        125 => FormatKindView::Color(spec_color(layout_channels(Layout::RGBA32), NumericKind::Float, false)),  // RGBA32Float
        130 => FormatKindView::Compressed(CompressedFormat { scheme: CompressionScheme::Bc, block: (4, 4), block_bytes: 8, srgb: false }),  // BC1_RGBA
        131 => FormatKindView::Compressed(CompressedFormat { scheme: CompressionScheme::Bc, block: (4, 4), block_bytes: 8, srgb: true }),  // BC1_RGBA_sRGB
        132 => FormatKindView::Compressed(CompressedFormat { scheme: CompressionScheme::Bc, block: (4, 4), block_bytes: 16, srgb: false }),  // BC2_RGBA
        133 => FormatKindView::Compressed(CompressedFormat { scheme: CompressionScheme::Bc, block: (4, 4), block_bytes: 16, srgb: true }),  // BC2_RGBA_sRGB
        134 => FormatKindView::Compressed(CompressedFormat { scheme: CompressionScheme::Bc, block: (4, 4), block_bytes: 16, srgb: false }),  // BC3_RGBA
        135 => FormatKindView::Compressed(CompressedFormat { scheme: CompressionScheme::Bc, block: (4, 4), block_bytes: 16, srgb: true }),  // BC3_RGBA_sRGB
        140 => FormatKindView::Compressed(CompressedFormat { scheme: CompressionScheme::Bc, block: (4, 4), block_bytes: 8, srgb: false }),  // BC4_RUnorm
        141 => FormatKindView::Compressed(CompressedFormat { scheme: CompressionScheme::Bc, block: (4, 4), block_bytes: 8, srgb: false }),  // BC4_RSnorm
        142 => FormatKindView::Compressed(CompressedFormat { scheme: CompressionScheme::Bc, block: (4, 4), block_bytes: 16, srgb: false }),  // BC5_RGUnorm
        143 => FormatKindView::Compressed(CompressedFormat { scheme: CompressionScheme::Bc, block: (4, 4), block_bytes: 16, srgb: false }),  // BC5_RGSnorm
        150 => FormatKindView::Compressed(CompressedFormat { scheme: CompressionScheme::Bc, block: (4, 4), block_bytes: 16, srgb: false }),  // BC6H_RGBFloat
        151 => FormatKindView::Compressed(CompressedFormat { scheme: CompressionScheme::Bc, block: (4, 4), block_bytes: 16, srgb: false }),  // BC6H_RGBUfloat
        152 => FormatKindView::Compressed(CompressedFormat { scheme: CompressionScheme::Bc, block: (4, 4), block_bytes: 16, srgb: false }),  // BC7_RGBAUnorm
        153 => FormatKindView::Compressed(CompressedFormat { scheme: CompressionScheme::Bc, block: (4, 4), block_bytes: 16, srgb: true }),  // BC7_RGBAUnorm_sRGB
        160 => FormatKindView::Compressed(CompressedFormat { scheme: CompressionScheme::Pvrtc, block: (8, 4), block_bytes: 8, srgb: false }),  // PVRTC_RGB_2BPP
        161 => FormatKindView::Compressed(CompressedFormat { scheme: CompressionScheme::Pvrtc, block: (8, 4), block_bytes: 8, srgb: true }),  // PVRTC_RGB_2BPP_sRGB
        162 => FormatKindView::Compressed(CompressedFormat { scheme: CompressionScheme::Pvrtc, block: (4, 4), block_bytes: 8, srgb: false }),  // PVRTC_RGB_4BPP
        163 => FormatKindView::Compressed(CompressedFormat { scheme: CompressionScheme::Pvrtc, block: (4, 4), block_bytes: 8, srgb: true }),  // PVRTC_RGB_4BPP_sRGB
        164 => FormatKindView::Compressed(CompressedFormat { scheme: CompressionScheme::Pvrtc, block: (8, 4), block_bytes: 8, srgb: false }),  // PVRTC_RGBA_2BPP
        165 => FormatKindView::Compressed(CompressedFormat { scheme: CompressionScheme::Pvrtc, block: (8, 4), block_bytes: 8, srgb: true }),  // PVRTC_RGBA_2BPP_sRGB
        166 => FormatKindView::Compressed(CompressedFormat { scheme: CompressionScheme::Pvrtc, block: (4, 4), block_bytes: 8, srgb: false }),  // PVRTC_RGBA_4BPP
        167 => FormatKindView::Compressed(CompressedFormat { scheme: CompressionScheme::Pvrtc, block: (4, 4), block_bytes: 8, srgb: true }),  // PVRTC_RGBA_4BPP_sRGB
        170 => FormatKindView::Compressed(CompressedFormat { scheme: CompressionScheme::Eac, block: (4, 4), block_bytes: 8, srgb: false }),  // EAC_R11Unorm
        172 => FormatKindView::Compressed(CompressedFormat { scheme: CompressionScheme::Eac, block: (4, 4), block_bytes: 8, srgb: false }),  // EAC_R11Snorm
        174 => FormatKindView::Compressed(CompressedFormat { scheme: CompressionScheme::Eac, block: (4, 4), block_bytes: 16, srgb: false }),  // EAC_RG11Unorm
        176 => FormatKindView::Compressed(CompressedFormat { scheme: CompressionScheme::Eac, block: (4, 4), block_bytes: 16, srgb: false }),  // EAC_RG11Snorm
        178 => FormatKindView::Compressed(CompressedFormat { scheme: CompressionScheme::Eac, block: (4, 4), block_bytes: 16, srgb: false }),  // EAC_RGBA8
        179 => FormatKindView::Compressed(CompressedFormat { scheme: CompressionScheme::Eac, block: (4, 4), block_bytes: 16, srgb: true }),  // EAC_RGBA8_sRGB
        180 => FormatKindView::Compressed(CompressedFormat { scheme: CompressionScheme::Etc2, block: (4, 4), block_bytes: 8, srgb: false }),  // ETC2_RGB8
        181 => FormatKindView::Compressed(CompressedFormat { scheme: CompressionScheme::Etc2, block: (4, 4), block_bytes: 8, srgb: true }),  // ETC2_RGB8_sRGB
        182 => FormatKindView::Compressed(CompressedFormat { scheme: CompressionScheme::Etc2, block: (4, 4), block_bytes: 8, srgb: false }),  // ETC2_RGB8A1
        183 => FormatKindView::Compressed(CompressedFormat { scheme: CompressionScheme::Etc2, block: (4, 4), block_bytes: 8, srgb: true }),  // ETC2_RGB8A1_sRGB
        186 => FormatKindView::Compressed(CompressedFormat { scheme: CompressionScheme::Astc, block: (4, 4), block_bytes: 16, srgb: true }),  // ASTC_4x4_sRGB
        187 => FormatKindView::Compressed(CompressedFormat { scheme: CompressionScheme::Astc, block: (5, 4), block_bytes: 16, srgb: true }),  // ASTC_5x4_sRGB
        188 => FormatKindView::Compressed(CompressedFormat { scheme: CompressionScheme::Astc, block: (5, 5), block_bytes: 16, srgb: true }),  // ASTC_5x5_sRGB
        189 => FormatKindView::Compressed(CompressedFormat { scheme: CompressionScheme::Astc, block: (6, 5), block_bytes: 16, srgb: true }),  // ASTC_6x5_sRGB
        190 => FormatKindView::Compressed(CompressedFormat { scheme: CompressionScheme::Astc, block: (6, 6), block_bytes: 16, srgb: true }),  // ASTC_6x6_sRGB
        192 => FormatKindView::Compressed(CompressedFormat { scheme: CompressionScheme::Astc, block: (8, 5), block_bytes: 16, srgb: true }),  // ASTC_8x5_sRGB
        193 => FormatKindView::Compressed(CompressedFormat { scheme: CompressionScheme::Astc, block: (8, 6), block_bytes: 16, srgb: true }),  // ASTC_8x6_sRGB
        194 => FormatKindView::Compressed(CompressedFormat { scheme: CompressionScheme::Astc, block: (8, 8), block_bytes: 16, srgb: true }),  // ASTC_8x8_sRGB
        195 => FormatKindView::Compressed(CompressedFormat { scheme: CompressionScheme::Astc, block: (10, 5), block_bytes: 16, srgb: true }),  // ASTC_10x5_sRGB
        196 => FormatKindView::Compressed(CompressedFormat { scheme: CompressionScheme::Astc, block: (10, 6), block_bytes: 16, srgb: true }),  // ASTC_10x6_sRGB
        197 => FormatKindView::Compressed(CompressedFormat { scheme: CompressionScheme::Astc, block: (10, 8), block_bytes: 16, srgb: true }),  // ASTC_10x8_sRGB
        198 => FormatKindView::Compressed(CompressedFormat { scheme: CompressionScheme::Astc, block: (10, 10), block_bytes: 16, srgb: true }),  // ASTC_10x10_sRGB
        199 => FormatKindView::Compressed(CompressedFormat { scheme: CompressionScheme::Astc, block: (12, 10), block_bytes: 16, srgb: true }),  // ASTC_12x10_sRGB
        200 => FormatKindView::Compressed(CompressedFormat { scheme: CompressionScheme::Astc, block: (12, 12), block_bytes: 16, srgb: true }),  // ASTC_12x12_sRGB
        204 => FormatKindView::Compressed(CompressedFormat { scheme: CompressionScheme::Astc, block: (4, 4), block_bytes: 16, srgb: false }),  // ASTC_4x4_LDR
        205 => FormatKindView::Compressed(CompressedFormat { scheme: CompressionScheme::Astc, block: (5, 4), block_bytes: 16, srgb: false }),  // ASTC_5x4_LDR
        206 => FormatKindView::Compressed(CompressedFormat { scheme: CompressionScheme::Astc, block: (5, 5), block_bytes: 16, srgb: false }),  // ASTC_5x5_LDR
        207 => FormatKindView::Compressed(CompressedFormat { scheme: CompressionScheme::Astc, block: (6, 5), block_bytes: 16, srgb: false }),  // ASTC_6x5_LDR
        208 => FormatKindView::Compressed(CompressedFormat { scheme: CompressionScheme::Astc, block: (6, 6), block_bytes: 16, srgb: false }),  // ASTC_6x6_LDR
        210 => FormatKindView::Compressed(CompressedFormat { scheme: CompressionScheme::Astc, block: (8, 5), block_bytes: 16, srgb: false }),  // ASTC_8x5_LDR
        211 => FormatKindView::Compressed(CompressedFormat { scheme: CompressionScheme::Astc, block: (8, 6), block_bytes: 16, srgb: false }),  // ASTC_8x6_LDR
        212 => FormatKindView::Compressed(CompressedFormat { scheme: CompressionScheme::Astc, block: (8, 8), block_bytes: 16, srgb: false }),  // ASTC_8x8_LDR
        213 => FormatKindView::Compressed(CompressedFormat { scheme: CompressionScheme::Astc, block: (10, 5), block_bytes: 16, srgb: false }),  // ASTC_10x5_LDR
        214 => FormatKindView::Compressed(CompressedFormat { scheme: CompressionScheme::Astc, block: (10, 6), block_bytes: 16, srgb: false }),  // ASTC_10x6_LDR
        215 => FormatKindView::Compressed(CompressedFormat { scheme: CompressionScheme::Astc, block: (10, 8), block_bytes: 16, srgb: false }),  // ASTC_10x8_LDR
        216 => FormatKindView::Compressed(CompressedFormat { scheme: CompressionScheme::Astc, block: (10, 10), block_bytes: 16, srgb: false }),  // ASTC_10x10_LDR
        217 => FormatKindView::Compressed(CompressedFormat { scheme: CompressionScheme::Astc, block: (12, 10), block_bytes: 16, srgb: false }),  // ASTC_12x10_LDR
        218 => FormatKindView::Compressed(CompressedFormat { scheme: CompressionScheme::Astc, block: (12, 12), block_bytes: 16, srgb: false }),  // ASTC_12x12_LDR
        222 => FormatKindView::Compressed(CompressedFormat { scheme: CompressionScheme::Astc, block: (4, 4), block_bytes: 16, srgb: false }),  // ASTC_4x4_HDR
        223 => FormatKindView::Compressed(CompressedFormat { scheme: CompressionScheme::Astc, block: (5, 4), block_bytes: 16, srgb: false }),  // ASTC_5x4_HDR
        224 => FormatKindView::Compressed(CompressedFormat { scheme: CompressionScheme::Astc, block: (5, 5), block_bytes: 16, srgb: false }),  // ASTC_5x5_HDR
        225 => FormatKindView::Compressed(CompressedFormat { scheme: CompressionScheme::Astc, block: (6, 5), block_bytes: 16, srgb: false }),  // ASTC_6x5_HDR
        226 => FormatKindView::Compressed(CompressedFormat { scheme: CompressionScheme::Astc, block: (6, 6), block_bytes: 16, srgb: false }),  // ASTC_6x6_HDR
        228 => FormatKindView::Compressed(CompressedFormat { scheme: CompressionScheme::Astc, block: (8, 5), block_bytes: 16, srgb: false }),  // ASTC_8x5_HDR
        229 => FormatKindView::Compressed(CompressedFormat { scheme: CompressionScheme::Astc, block: (8, 6), block_bytes: 16, srgb: false }),  // ASTC_8x6_HDR
        230 => FormatKindView::Compressed(CompressedFormat { scheme: CompressionScheme::Astc, block: (8, 8), block_bytes: 16, srgb: false }),  // ASTC_8x8_HDR
        231 => FormatKindView::Compressed(CompressedFormat { scheme: CompressionScheme::Astc, block: (10, 5), block_bytes: 16, srgb: false }),  // ASTC_10x5_HDR
        232 => FormatKindView::Compressed(CompressedFormat { scheme: CompressionScheme::Astc, block: (10, 6), block_bytes: 16, srgb: false }),  // ASTC_10x6_HDR
        233 => FormatKindView::Compressed(CompressedFormat { scheme: CompressionScheme::Astc, block: (10, 8), block_bytes: 16, srgb: false }),  // ASTC_10x8_HDR
        234 => FormatKindView::Compressed(CompressedFormat { scheme: CompressionScheme::Astc, block: (10, 10), block_bytes: 16, srgb: false }),  // ASTC_10x10_HDR
        235 => FormatKindView::Compressed(CompressedFormat { scheme: CompressionScheme::Astc, block: (12, 10), block_bytes: 16, srgb: false }),  // ASTC_12x10_HDR
        236 => FormatKindView::Compressed(CompressedFormat { scheme: CompressionScheme::Astc, block: (12, 12), block_bytes: 16, srgb: false }),  // ASTC_12x12_HDR
        250 => FormatKindView::DepthStencil(DepthStencilFormat { depth: Some(DepthKind::Unorm16), stencil: None, bytes_per_pixel: 2 }),  // Depth16Unorm
        252 => FormatKindView::DepthStencil(DepthStencilFormat { depth: Some(DepthKind::Float32), stencil: None, bytes_per_pixel: 4 }),  // Depth32Float
        253 => FormatKindView::DepthStencil(DepthStencilFormat { depth: None, stencil: Some(StencilKind::Uint8), bytes_per_pixel: 1 }),  // Stencil8
        260 => FormatKindView::DepthStencil(DepthStencilFormat { depth: Some(DepthKind::Float32), stencil: Some(StencilKind::Uint8), bytes_per_pixel: 8 }),  // Depth32Float_Stencil8
        261 => FormatKindView::DepthStencil(DepthStencilFormat { depth: None, stencil: Some(StencilKind::Uint8), bytes_per_pixel: 8 }),  // X32_Stencil8
        262 => FormatKindView::DepthStencil(DepthStencilFormat { depth: None, stencil: Some(StencilKind::Uint8), bytes_per_pixel: 4 }),  // X24_Stencil8
        _ => FormatKindView::Unknown,
    }
}

/// A depth/stencil format of the given aspects and stride.
fn depth_stencil(depth: Option<DepthKind>, stencil: Option<StencilKind>, bytes_per_pixel: usize) -> (f:
    DepthStencilFormat)
    ensures
        f == (DepthStencilFormat { depth, stencil, bytes_per_pixel }),
{
    DepthStencilFormat { depth, stencil, bytes_per_pixel }
}

/// A block-compressed format of the given scheme, block and block size.
fn compressed(scheme: CompressionScheme, block: (u8, u8), block_bytes: u8, srgb: bool) -> (f:
    CompressedFormat)
    ensures
        f == (CompressedFormat { scheme, block, block_bytes, srgb }),
{
    CompressedFormat { scheme, block, block_bytes, srgb }
}

/// Decompose a raw `MTLPixelFormat` value into its structural metadata.
///
/// Anything the table does not describe maps to [`FormatKind::Unknown`]; the
/// raw bytes remain available regardless.
#[verifier::rlimit(100)]
pub fn format_kind(raw: u32) -> (k: FormatKind)
    ensures
        k@ == spec_format_kind(raw),
{
    match raw {
        1 => FormatKind::Color(color(channels_of(Layout::A8), NumericKind::Unorm, false)),  // A8Unorm
        10 => FormatKind::Color(color(channels_of(Layout::R8), NumericKind::Unorm, false)),  // R8Unorm
        11 => FormatKind::Color(color(channels_of(Layout::R8), NumericKind::Unorm, true)),  // R8Unorm_sRGB
        12 => FormatKind::Color(color(channels_of(Layout::R8), NumericKind::Snorm, false)),  // R8Snorm
        13 => FormatKind::Color(color(channels_of(Layout::R8), NumericKind::Uint, false)),  // R8Uint
        14 => FormatKind::Color(color(channels_of(Layout::R8), NumericKind::Sint, false)),  // R8Sint
        20 => FormatKind::Color(color(channels_of(Layout::R16), NumericKind::Unorm, false)),  // R16Unorm
        22 => FormatKind::Color(color(channels_of(Layout::R16), NumericKind::Snorm, false)),  // R16Snorm
        23 => FormatKind::Color(color(channels_of(Layout::R16), NumericKind::Uint, false)),  // R16Uint
        24 => FormatKind::Color(color(channels_of(Layout::R16), NumericKind::Sint, false)),  // R16Sint
        25 => FormatKind::Color(color(channels_of(Layout::R16), NumericKind::Float, false)),  // R16Float
        53 => FormatKind::Color(color(channels_of(Layout::R32), NumericKind::Uint, false)),  // R32Uint
        54 => FormatKind::Color(color(channels_of(Layout::R32), NumericKind::Sint, false)),  // R32Sint
        55 => FormatKind::Color(color(channels_of(Layout::R32), NumericKind::Float, false)),  // R32Float
        30 => FormatKind::Color(color(channels_of(Layout::RG8), NumericKind::Unorm, false)),  // RG8Unorm
        31 => FormatKind::Color(color(channels_of(Layout::RG8), NumericKind::Unorm, true)),  // RG8Unorm_sRGB
        32 => FormatKind::Color(color(channels_of(Layout::RG8), NumericKind::Snorm, false)),  // RG8Snorm
        33 => FormatKind::Color(color(channels_of(Layout::RG8), NumericKind::Uint, false)),  // RG8Uint
        34 => FormatKind::Color(color(channels_of(Layout::RG8), NumericKind::Sint, false)),  // RG8Sint
        60 => FormatKind::Color(color(channels_of(Layout::RG16), NumericKind::Unorm, false)),  // RG16Unorm
        62 => FormatKind::Color(color(channels_of(Layout::RG16), NumericKind::Snorm, false)),  // RG16Snorm
        63 => FormatKind::Color(color(channels_of(Layout::RG16), NumericKind::Uint, false)),  // RG16Uint
        64 => FormatKind::Color(color(channels_of(Layout::RG16), NumericKind::Sint, false)),  // RG16Sint
        65 => FormatKind::Color(color(channels_of(Layout::RG16), NumericKind::Float, false)),  // RG16Float
        103 => FormatKind::Color(color(channels_of(Layout::RG32), NumericKind::Uint, false)),  // RG32Uint
        104 => FormatKind::Color(color(channels_of(Layout::RG32), NumericKind::Sint, false)),  // RG32Sint
        105 => FormatKind::Color(color(channels_of(Layout::RG32), NumericKind::Float, false)),  // RG32Float
        40 => FormatKind::Color(color(channels_of(Layout::B5G6R5), NumericKind::Unorm, false)),  // B5G6R5Unorm
        41 => FormatKind::Color(color(channels_of(Layout::A1BGR5), NumericKind::Unorm, false)),  // A1BGR5Unorm
        42 => FormatKind::Color(color(channels_of(Layout::ABGR4), NumericKind::Unorm, false)),  // ABGR4Unorm
        43 => FormatKind::Color(color(channels_of(Layout::BGR5A1), NumericKind::Unorm, false)),  // BGR5A1Unorm
        70 => FormatKind::Color(color(channels_of(Layout::RGBA8), NumericKind::Unorm, false)),  // RGBA8Unorm
        71 => FormatKind::Color(color(channels_of(Layout::RGBA8), NumericKind::Unorm, true)),  // RGBA8Unorm_sRGB
        72 => FormatKind::Color(color(channels_of(Layout::RGBA8), NumericKind::Snorm, false)),  // RGBA8Snorm
        73 => FormatKind::Color(color(channels_of(Layout::RGBA8), NumericKind::Uint, false)),  // RGBA8Uint
        74 => FormatKind::Color(color(channels_of(Layout::RGBA8), NumericKind::Sint, false)),  // RGBA8Sint
        80 => FormatKind::Color(color(channels_of(Layout::BGRA8), NumericKind::Unorm, false)),  // BGRA8Unorm
        81 => FormatKind::Color(color(channels_of(Layout::BGRA8), NumericKind::Unorm, true)),  // BGRA8Unorm_sRGB
        90 => FormatKind::Color(color(channels_of(Layout::RGB10A2), NumericKind::Unorm, false)),  // RGB10A2Unorm
        91 => FormatKind::Color(color(channels_of(Layout::RGB10A2), NumericKind::Uint, false)),  // RGB10A2Uint
        92 => FormatKind::Color(color(channels_of(Layout::RG11B10), NumericKind::Float, false)),  // RG11B10Float
        93 => FormatKind::Color(ColorFormat {
            channels: channels_of(Layout::RGB9E5),
            numeric: NumericKind::SharedExponent,
            srgb: false,
            bytes_per_pixel: 4,
            byte_aligned: false,
        }),  // RGB9E5Float
        94 => FormatKind::Color(color(channels_of(Layout::BGR10A2), NumericKind::Unorm, false)),  // BGR10A2Unorm
        110 => FormatKind::Color(color(channels_of(Layout::RGBA16), NumericKind::Unorm, false)),  // RGBA16Unorm
        112 => FormatKind::Color(color(channels_of(Layout::RGBA16), NumericKind::Snorm, false)),  // RGBA16Snorm
        113 => FormatKind::Color(color(channels_of(Layout::RGBA16), NumericKind::Uint, false)),  // RGBA16Uint
        114 => FormatKind::Color(color(channels_of(Layout::RGBA16), NumericKind::Sint, false)),  // RGBA16Sint
        115 => FormatKind::Color(color(channels_of(Layout::RGBA16), NumericKind::Float, false)),  // RGBA16Float
        123 => FormatKind::Color(color(channels_of(Layout::RGBA32), NumericKind::Uint, false)),  // RGBA32Uint
        124 => FormatKind::Color(color(channels_of(Layout::RGBA32), NumericKind::Sint, false)),  // RGBA32Sint
        125 => FormatKind::Color(color(channels_of(Layout::RGBA32), NumericKind::Float, false)),  // RGBA32Float
        130 => FormatKind::Compressed(compressed(CompressionScheme::Bc, (4, 4), 8, false)),  // BC1_RGBA
        131 => FormatKind::Compressed(compressed(CompressionScheme::Bc, (4, 4), 8, true)),  // BC1_RGBA_sRGB
        132 => FormatKind::Compressed(compressed(CompressionScheme::Bc, (4, 4), 16, false)),  // BC2_RGBA
        133 => FormatKind::Compressed(compressed(CompressionScheme::Bc, (4, 4), 16, true)),  // BC2_RGBA_sRGB
        134 => FormatKind::Compressed(compressed(CompressionScheme::Bc, (4, 4), 16, false)),  // BC3_RGBA
        135 => FormatKind::Compressed(compressed(CompressionScheme::Bc, (4, 4), 16, true)),  // BC3_RGBA_sRGB
        140 => FormatKind::Compressed(compressed(CompressionScheme::Bc, (4, 4), 8, false)),  // BC4_RUnorm
        141 => FormatKind::Compressed(compressed(CompressionScheme::Bc, (4, 4), 8, false)),  // BC4_RSnorm
        142 => FormatKind::Compressed(compressed(CompressionScheme::Bc, (4, 4), 16, false)),  // BC5_RGUnorm
        143 => FormatKind::Compressed(compressed(CompressionScheme::Bc, (4, 4), 16, false)),  // BC5_RGSnorm
        150 => FormatKind::Compressed(compressed(CompressionScheme::Bc, (4, 4), 16, false)),  // BC6H_RGBFloat
        151 => FormatKind::Compressed(compressed(CompressionScheme::Bc, (4, 4), 16, false)),  // BC6H_RGBUfloat
        152 => FormatKind::Compressed(compressed(CompressionScheme::Bc, (4, 4), 16, false)),  // BC7_RGBAUnorm
        153 => FormatKind::Compressed(compressed(CompressionScheme::Bc, (4, 4), 16, true)),  // BC7_RGBAUnorm_sRGB
        160 => FormatKind::Compressed(compressed(CompressionScheme::Pvrtc, (8, 4), 8, false)),  // PVRTC_RGB_2BPP
        161 => FormatKind::Compressed(compressed(CompressionScheme::Pvrtc, (8, 4), 8, true)),  // PVRTC_RGB_2BPP_sRGB
        162 => FormatKind::Compressed(compressed(CompressionScheme::Pvrtc, (4, 4), 8, false)),  // PVRTC_RGB_4BPP
        163 => FormatKind::Compressed(compressed(CompressionScheme::Pvrtc, (4, 4), 8, true)),  // PVRTC_RGB_4BPP_sRGB
        164 => FormatKind::Compressed(compressed(CompressionScheme::Pvrtc, (8, 4), 8, false)),  // PVRTC_RGBA_2BPP
        165 => FormatKind::Compressed(compressed(CompressionScheme::Pvrtc, (8, 4), 8, true)),  // PVRTC_RGBA_2BPP_sRGB
        166 => FormatKind::Compressed(compressed(CompressionScheme::Pvrtc, (4, 4), 8, false)),  // PVRTC_RGBA_4BPP
        167 => FormatKind::Compressed(compressed(CompressionScheme::Pvrtc, (4, 4), 8, true)),  // PVRTC_RGBA_4BPP_sRGB
        170 => FormatKind::Compressed(compressed(CompressionScheme::Eac, (4, 4), 8, false)),  // EAC_R11Unorm
        172 => FormatKind::Compressed(compressed(CompressionScheme::Eac, (4, 4), 8, false)),  // EAC_R11Snorm
        174 => FormatKind::Compressed(compressed(CompressionScheme::Eac, (4, 4), 16, false)),  // EAC_RG11Unorm
        176 => FormatKind::Compressed(compressed(CompressionScheme::Eac, (4, 4), 16, false)),  // EAC_RG11Snorm
        178 => FormatKind::Compressed(compressed(CompressionScheme::Eac, (4, 4), 16, false)),  // EAC_RGBA8
        179 => FormatKind::Compressed(compressed(CompressionScheme::Eac, (4, 4), 16, true)),  // EAC_RGBA8_sRGB
        180 => FormatKind::Compressed(compressed(CompressionScheme::Etc2, (4, 4), 8, false)),  // ETC2_RGB8
        181 => FormatKind::Compressed(compressed(CompressionScheme::Etc2, (4, 4), 8, true)),  // ETC2_RGB8_sRGB
        182 => FormatKind::Compressed(compressed(CompressionScheme::Etc2, (4, 4), 8, false)),  // ETC2_RGB8A1
        183 => FormatKind::Compressed(compressed(CompressionScheme::Etc2, (4, 4), 8, true)),  // ETC2_RGB8A1_sRGB
        186 => FormatKind::Compressed(compressed(CompressionScheme::Astc, (4, 4), 16, true)),  // ASTC_4x4_sRGB
        187 => FormatKind::Compressed(compressed(CompressionScheme::Astc, (5, 4), 16, true)),  // ASTC_5x4_sRGB
        188 => FormatKind::Compressed(compressed(CompressionScheme::Astc, (5, 5), 16, true)),  // ASTC_5x5_sRGB
        189 => FormatKind::Compressed(compressed(CompressionScheme::Astc, (6, 5), 16, true)),  // ASTC_6x5_sRGB
        190 => FormatKind::Compressed(compressed(CompressionScheme::Astc, (6, 6), 16, true)),  // ASTC_6x6_sRGB
        192 => FormatKind::Compressed(compressed(CompressionScheme::Astc, (8, 5), 16, true)),  // ASTC_8x5_sRGB
        193 => FormatKind::Compressed(compressed(CompressionScheme::Astc, (8, 6), 16, true)),  // ASTC_8x6_sRGB
        194 => FormatKind::Compressed(compressed(CompressionScheme::Astc, (8, 8), 16, true)),  // ASTC_8x8_sRGB
        195 => FormatKind::Compressed(compressed(CompressionScheme::Astc, (10, 5), 16, true)),  // ASTC_10x5_sRGB
        196 => FormatKind::Compressed(compressed(CompressionScheme::Astc, (10, 6), 16, true)),  // ASTC_10x6_sRGB
        197 => FormatKind::Compressed(compressed(CompressionScheme::Astc, (10, 8), 16, true)),  // ASTC_10x8_sRGB
        198 => FormatKind::Compressed(compressed(CompressionScheme::Astc, (10, 10), 16, true)),  // ASTC_10x10_sRGB
        199 => FormatKind::Compressed(compressed(CompressionScheme::Astc, (12, 10), 16, true)),  // ASTC_12x10_sRGB
        200 => FormatKind::Compressed(compressed(CompressionScheme::Astc, (12, 12), 16, true)),  // ASTC_12x12_sRGB
        204 => FormatKind::Compressed(compressed(CompressionScheme::Astc, (4, 4), 16, false)),  // ASTC_4x4_LDR
        205 => FormatKind::Compressed(compressed(CompressionScheme::Astc, (5, 4), 16, false)),  // ASTC_5x4_LDR
        206 => FormatKind::Compressed(compressed(CompressionScheme::Astc, (5, 5), 16, false)),  // ASTC_5x5_LDR
        207 => FormatKind::Compressed(compressed(CompressionScheme::Astc, (6, 5), 16, false)),  // ASTC_6x5_LDR
        208 => FormatKind::Compressed(compressed(CompressionScheme::Astc, (6, 6), 16, false)),  // ASTC_6x6_LDR
        210 => FormatKind::Compressed(compressed(CompressionScheme::Astc, (8, 5), 16, false)),  // ASTC_8x5_LDR
        211 => FormatKind::Compressed(compressed(CompressionScheme::Astc, (8, 6), 16, false)),  // ASTC_8x6_LDR
        212 => FormatKind::Compressed(compressed(CompressionScheme::Astc, (8, 8), 16, false)),  // ASTC_8x8_LDR
        213 => FormatKind::Compressed(compressed(CompressionScheme::Astc, (10, 5), 16, false)),  // ASTC_10x5_LDR
        214 => FormatKind::Compressed(compressed(CompressionScheme::Astc, (10, 6), 16, false)),  // ASTC_10x6_LDR
        215 => FormatKind::Compressed(compressed(CompressionScheme::Astc, (10, 8), 16, false)),  // ASTC_10x8_LDR
        216 => FormatKind::Compressed(compressed(CompressionScheme::Astc, (10, 10), 16, false)),  // ASTC_10x10_LDR
        217 => FormatKind::Compressed(compressed(CompressionScheme::Astc, (12, 10), 16, false)),  // ASTC_12x10_LDR
        218 => FormatKind::Compressed(compressed(CompressionScheme::Astc, (12, 12), 16, false)),  // ASTC_12x12_LDR
        222 => FormatKind::Compressed(compressed(CompressionScheme::Astc, (4, 4), 16, false)),  // ASTC_4x4_HDR
        223 => FormatKind::Compressed(compressed(CompressionScheme::Astc, (5, 4), 16, false)),  // ASTC_5x4_HDR
        224 => FormatKind::Compressed(compressed(CompressionScheme::Astc, (5, 5), 16, false)),  // ASTC_5x5_HDR
        225 => FormatKind::Compressed(compressed(CompressionScheme::Astc, (6, 5), 16, false)),  // ASTC_6x5_HDR
        226 => FormatKind::Compressed(compressed(CompressionScheme::Astc, (6, 6), 16, false)),  // ASTC_6x6_HDR
        228 => FormatKind::Compressed(compressed(CompressionScheme::Astc, (8, 5), 16, false)),  // ASTC_8x5_HDR
        229 => FormatKind::Compressed(compressed(CompressionScheme::Astc, (8, 6), 16, false)),  // ASTC_8x6_HDR
        230 => FormatKind::Compressed(compressed(CompressionScheme::Astc, (8, 8), 16, false)),  // ASTC_8x8_HDR
        231 => FormatKind::Compressed(compressed(CompressionScheme::Astc, (10, 5), 16, false)),  // ASTC_10x5_HDR
        232 => FormatKind::Compressed(compressed(CompressionScheme::Astc, (10, 6), 16, false)),  // ASTC_10x6_HDR
        233 => FormatKind::Compressed(compressed(CompressionScheme::Astc, (10, 8), 16, false)),  // ASTC_10x8_HDR
        234 => FormatKind::Compressed(compressed(CompressionScheme::Astc, (10, 10), 16, false)),  // ASTC_10x10_HDR
        235 => FormatKind::Compressed(compressed(CompressionScheme::Astc, (12, 10), 16, false)),  // ASTC_12x10_HDR
        236 => FormatKind::Compressed(compressed(CompressionScheme::Astc, (12, 12), 16, false)),  // ASTC_12x12_HDR
        250 => FormatKind::DepthStencil(depth_stencil(Some(DepthKind::Unorm16), None, 2)),  // Depth16Unorm
        252 => FormatKind::DepthStencil(depth_stencil(Some(DepthKind::Float32), None, 4)),  // Depth32Float
        253 => FormatKind::DepthStencil(depth_stencil(None, Some(StencilKind::Uint8), 1)),  // Stencil8
        260 => FormatKind::DepthStencil(depth_stencil(Some(DepthKind::Float32), Some(StencilKind::Uint8), 8)),  // Depth32Float_Stencil8
        261 => FormatKind::DepthStencil(depth_stencil(None, Some(StencilKind::Uint8), 8)),  // X32_Stencil8
        262 => FormatKind::DepthStencil(depth_stencil(None, Some(StencilKind::Uint8), 4)),  // X24_Stencil8
        _ => FormatKind::Unknown,
    }
}

/// The canonical Metal name of every format code the table describes.
pub open spec fn spec_name(raw: u32) -> Option<&'static str> {
    match raw {
        1 => Some("A8Unorm"),
        10 => Some("R8Unorm"),
        11 => Some("R8Unorm_sRGB"),
        12 => Some("R8Snorm"),
        13 => Some("R8Uint"),
        14 => Some("R8Sint"),
        20 => Some("R16Unorm"),
        22 => Some("R16Snorm"),
        23 => Some("R16Uint"),
        24 => Some("R16Sint"),
        25 => Some("R16Float"),
        53 => Some("R32Uint"),
        54 => Some("R32Sint"),
        55 => Some("R32Float"),
        30 => Some("RG8Unorm"),
        31 => Some("RG8Unorm_sRGB"),
        32 => Some("RG8Snorm"),
        33 => Some("RG8Uint"),
        34 => Some("RG8Sint"),
        60 => Some("RG16Unorm"),
        62 => Some("RG16Snorm"),
        63 => Some("RG16Uint"),
        64 => Some("RG16Sint"),
        65 => Some("RG16Float"),
        103 => Some("RG32Uint"),
        104 => Some("RG32Sint"),
        105 => Some("RG32Float"),
        40 => Some("B5G6R5Unorm"),
        41 => Some("A1BGR5Unorm"),
        42 => Some("ABGR4Unorm"),
        43 => Some("BGR5A1Unorm"),
        70 => Some("RGBA8Unorm"),
        71 => Some("RGBA8Unorm_sRGB"),
        72 => Some("RGBA8Snorm"),
        73 => Some("RGBA8Uint"),
        74 => Some("RGBA8Sint"),
        80 => Some("BGRA8Unorm"),
        81 => Some("BGRA8Unorm_sRGB"),
        90 => Some("RGB10A2Unorm"),
        91 => Some("RGB10A2Uint"),
        92 => Some("RG11B10Float"),
        93 => Some("RGB9E5Float"),
        94 => Some("BGR10A2Unorm"),
        110 => Some("RGBA16Unorm"),
        112 => Some("RGBA16Snorm"),
        113 => Some("RGBA16Uint"),
        114 => Some("RGBA16Sint"),
        115 => Some("RGBA16Float"),
        123 => Some("RGBA32Uint"),
        124 => Some("RGBA32Sint"),
        125 => Some("RGBA32Float"),
        130 => Some("BC1_RGBA"),
        131 => Some("BC1_RGBA_sRGB"),
        132 => Some("BC2_RGBA"),
        133 => Some("BC2_RGBA_sRGB"),
        134 => Some("BC3_RGBA"),
        135 => Some("BC3_RGBA_sRGB"),
        140 => Some("BC4_RUnorm"),
        141 => Some("BC4_RSnorm"),
        142 => Some("BC5_RGUnorm"),
        143 => Some("BC5_RGSnorm"),
        150 => Some("BC6H_RGBFloat"),
        151 => Some("BC6H_RGBUfloat"),
        152 => Some("BC7_RGBAUnorm"),
        153 => Some("BC7_RGBAUnorm_sRGB"),
        160 => Some("PVRTC_RGB_2BPP"),
        161 => Some("PVRTC_RGB_2BPP_sRGB"),
        162 => Some("PVRTC_RGB_4BPP"),
        163 => Some("PVRTC_RGB_4BPP_sRGB"),
        164 => Some("PVRTC_RGBA_2BPP"),
        165 => Some("PVRTC_RGBA_2BPP_sRGB"),
        166 => Some("PVRTC_RGBA_4BPP"),
        167 => Some("PVRTC_RGBA_4BPP_sRGB"),
        170 => Some("EAC_R11Unorm"),
        172 => Some("EAC_R11Snorm"),
        174 => Some("EAC_RG11Unorm"),
        176 => Some("EAC_RG11Snorm"),
        178 => Some("EAC_RGBA8"),
        179 => Some("EAC_RGBA8_sRGB"),
        180 => Some("ETC2_RGB8"),
        181 => Some("ETC2_RGB8_sRGB"),
        182 => Some("ETC2_RGB8A1"),
        183 => Some("ETC2_RGB8A1_sRGB"),
        186 => Some("ASTC_4x4_sRGB"),
        187 => Some("ASTC_5x4_sRGB"),
        188 => Some("ASTC_5x5_sRGB"),
        189 => Some("ASTC_6x5_sRGB"),
        190 => Some("ASTC_6x6_sRGB"),
        192 => Some("ASTC_8x5_sRGB"),
        193 => Some("ASTC_8x6_sRGB"),
        194 => Some("ASTC_8x8_sRGB"),
        195 => Some("ASTC_10x5_sRGB"),
        196 => Some("ASTC_10x6_sRGB"),
        197 => Some("ASTC_10x8_sRGB"),
        198 => Some("ASTC_10x10_sRGB"),
        199 => Some("ASTC_12x10_sRGB"),
        200 => Some("ASTC_12x12_sRGB"),
        204 => Some("ASTC_4x4_LDR"),
        205 => Some("ASTC_5x4_LDR"),
        206 => Some("ASTC_5x5_LDR"),
        207 => Some("ASTC_6x5_LDR"),
        208 => Some("ASTC_6x6_LDR"),
        210 => Some("ASTC_8x5_LDR"),
        211 => Some("ASTC_8x6_LDR"),
        212 => Some("ASTC_8x8_LDR"),
        213 => Some("ASTC_10x5_LDR"),
        214 => Some("ASTC_10x6_LDR"),
        215 => Some("ASTC_10x8_LDR"),
        216 => Some("ASTC_10x10_LDR"),
        217 => Some("ASTC_12x10_LDR"),
        218 => Some("ASTC_12x12_LDR"),
        222 => Some("ASTC_4x4_HDR"),
        223 => Some("ASTC_5x4_HDR"),
        224 => Some("ASTC_5x5_HDR"),
        225 => Some("ASTC_6x5_HDR"),
        226 => Some("ASTC_6x6_HDR"),
        228 => Some("ASTC_8x5_HDR"),
        229 => Some("ASTC_8x6_HDR"),
        230 => Some("ASTC_8x8_HDR"),
        231 => Some("ASTC_10x5_HDR"),
        232 => Some("ASTC_10x6_HDR"),
        233 => Some("ASTC_10x8_HDR"),
        234 => Some("ASTC_10x10_HDR"),
        235 => Some("ASTC_12x10_HDR"),
        236 => Some("ASTC_12x12_HDR"),
        250 => Some("Depth16Unorm"),
        252 => Some("Depth32Float"),
        253 => Some("Stencil8"),
        260 => Some("Depth32Float_Stencil8"),
        261 => Some("X32_Stencil8"),
        262 => Some("X24_Stencil8"),
        _ => None,
    }
}

/// The canonical Metal name for a known `MTLPixelFormat` code, `None` for a
/// format the table does not describe. Mirrors [`format_kind`]'s arms.
pub fn name(raw: u32) -> (r: Option<&'static str>)
    ensures
        r == spec_name(raw),
{
    match raw {
        1 => Some("A8Unorm"),
        10 => Some("R8Unorm"),
        11 => Some("R8Unorm_sRGB"),
        12 => Some("R8Snorm"),
        13 => Some("R8Uint"),
        14 => Some("R8Sint"),
        20 => Some("R16Unorm"),
        22 => Some("R16Snorm"),
        23 => Some("R16Uint"),
        24 => Some("R16Sint"),
        25 => Some("R16Float"),
        53 => Some("R32Uint"),
        54 => Some("R32Sint"),
        55 => Some("R32Float"),
        30 => Some("RG8Unorm"),
        31 => Some("RG8Unorm_sRGB"),
        32 => Some("RG8Snorm"),
        33 => Some("RG8Uint"),
        34 => Some("RG8Sint"),
        60 => Some("RG16Unorm"),
        62 => Some("RG16Snorm"),
        63 => Some("RG16Uint"),
        64 => Some("RG16Sint"),
        65 => Some("RG16Float"),
        103 => Some("RG32Uint"),
        104 => Some("RG32Sint"),
        105 => Some("RG32Float"),
        40 => Some("B5G6R5Unorm"),
        41 => Some("A1BGR5Unorm"),
        42 => Some("ABGR4Unorm"),
        43 => Some("BGR5A1Unorm"),
        70 => Some("RGBA8Unorm"),
        71 => Some("RGBA8Unorm_sRGB"),
        72 => Some("RGBA8Snorm"),
        73 => Some("RGBA8Uint"),
        74 => Some("RGBA8Sint"),
        80 => Some("BGRA8Unorm"),
        81 => Some("BGRA8Unorm_sRGB"),
        90 => Some("RGB10A2Unorm"),
        91 => Some("RGB10A2Uint"),
        92 => Some("RG11B10Float"),
        93 => Some("RGB9E5Float"),
        94 => Some("BGR10A2Unorm"),
        110 => Some("RGBA16Unorm"),
        112 => Some("RGBA16Snorm"),
        113 => Some("RGBA16Uint"),
        114 => Some("RGBA16Sint"),
        115 => Some("RGBA16Float"),
        123 => Some("RGBA32Uint"),
        124 => Some("RGBA32Sint"),
        125 => Some("RGBA32Float"),
        130 => Some("BC1_RGBA"),
        131 => Some("BC1_RGBA_sRGB"),
        132 => Some("BC2_RGBA"),
        133 => Some("BC2_RGBA_sRGB"),
        134 => Some("BC3_RGBA"),
        135 => Some("BC3_RGBA_sRGB"),
        140 => Some("BC4_RUnorm"),
        141 => Some("BC4_RSnorm"),
        142 => Some("BC5_RGUnorm"),
        143 => Some("BC5_RGSnorm"),
        150 => Some("BC6H_RGBFloat"),
        151 => Some("BC6H_RGBUfloat"),
        152 => Some("BC7_RGBAUnorm"),
        153 => Some("BC7_RGBAUnorm_sRGB"),
        160 => Some("PVRTC_RGB_2BPP"),
        161 => Some("PVRTC_RGB_2BPP_sRGB"),
        162 => Some("PVRTC_RGB_4BPP"),
        163 => Some("PVRTC_RGB_4BPP_sRGB"),
        164 => Some("PVRTC_RGBA_2BPP"),
        165 => Some("PVRTC_RGBA_2BPP_sRGB"),
        166 => Some("PVRTC_RGBA_4BPP"),
        167 => Some("PVRTC_RGBA_4BPP_sRGB"),
        170 => Some("EAC_R11Unorm"),
        172 => Some("EAC_R11Snorm"),
        174 => Some("EAC_RG11Unorm"),
        176 => Some("EAC_RG11Snorm"),
        178 => Some("EAC_RGBA8"),
        179 => Some("EAC_RGBA8_sRGB"),
        180 => Some("ETC2_RGB8"),
        181 => Some("ETC2_RGB8_sRGB"),
        182 => Some("ETC2_RGB8A1"),
        183 => Some("ETC2_RGB8A1_sRGB"),
        186 => Some("ASTC_4x4_sRGB"),
        187 => Some("ASTC_5x4_sRGB"),
        188 => Some("ASTC_5x5_sRGB"),
        189 => Some("ASTC_6x5_sRGB"),
        190 => Some("ASTC_6x6_sRGB"),
        192 => Some("ASTC_8x5_sRGB"),
        193 => Some("ASTC_8x6_sRGB"),
        194 => Some("ASTC_8x8_sRGB"),
        195 => Some("ASTC_10x5_sRGB"),
        196 => Some("ASTC_10x6_sRGB"),
        197 => Some("ASTC_10x8_sRGB"),
        198 => Some("ASTC_10x10_sRGB"),
        199 => Some("ASTC_12x10_sRGB"),
        200 => Some("ASTC_12x12_sRGB"),
        204 => Some("ASTC_4x4_LDR"),
        205 => Some("ASTC_5x4_LDR"),
        206 => Some("ASTC_5x5_LDR"),
        207 => Some("ASTC_6x5_LDR"),
        208 => Some("ASTC_6x6_LDR"),
        210 => Some("ASTC_8x5_LDR"),
        211 => Some("ASTC_8x6_LDR"),
        212 => Some("ASTC_8x8_LDR"),
        213 => Some("ASTC_10x5_LDR"),
        214 => Some("ASTC_10x6_LDR"),
        215 => Some("ASTC_10x8_LDR"),
        216 => Some("ASTC_10x10_LDR"),
        217 => Some("ASTC_12x10_LDR"),
        218 => Some("ASTC_12x12_LDR"),
        222 => Some("ASTC_4x4_HDR"),
        223 => Some("ASTC_5x4_HDR"),
        224 => Some("ASTC_5x5_HDR"),
        225 => Some("ASTC_6x5_HDR"),
        226 => Some("ASTC_6x6_HDR"),
        228 => Some("ASTC_8x5_HDR"),
        229 => Some("ASTC_8x6_HDR"),
        230 => Some("ASTC_8x8_HDR"),
        231 => Some("ASTC_10x5_HDR"),
        232 => Some("ASTC_10x6_HDR"),
        233 => Some("ASTC_10x8_HDR"),
        234 => Some("ASTC_10x10_HDR"),
        235 => Some("ASTC_12x10_HDR"),
        236 => Some("ASTC_12x12_HDR"),
        250 => Some("Depth16Unorm"),
        252 => Some("Depth32Float"),
        253 => Some("Stencil8"),
        260 => Some("Depth32Float_Stencil8"),
        261 => Some("X32_Stencil8"),
        262 => Some("X24_Stencil8"),
        _ => None,
    }
}

/// Every code that has a canonical name is one the structural table
/// describes, and every code the structural table describes has a name.
pub proof fn lemma_name_mirrors_format_kind(raw: u32)
    ensures
        (spec_name(raw) is Some) <==> !(spec_format_kind(raw) is Unknown),
{
}

/// No layout's channels are wider in total than four bytes of 255 bits.
proof fn lemma_layout_bits_bound(l: Layout)
    ensures
        total_bits(layout_channels(l)) <= 1020,
{
    assert(layout_channels(l).len() <= 4);
    lemma_total_bits_bound(layout_channels(l));
}

/// Every colour format of the table is sized by its channels: the stride is
/// their total width in whole bytes, and the format is byte-aligned exactly
/// when every channel has the same whole-byte width. The one exception is
/// the shared-exponent format (RGB9E5Float), whose 27 channel bits and
/// 5-bit shared exponent fill four bytes and which is never byte-aligned.
#[verifier::rlimit(100)]
pub proof fn lemma_color_stride(raw: u32)
    ensures
        spec_format_kind(raw) matches FormatKindView::Color(c) ==> if c.numeric
            != NumericKind::SharedExponent {
            &&& c.bytes_per_pixel == total_bits(c.channels) / 8
            &&& c.byte_aligned == uniform_whole_bytes(c.channels)
        } else {
            &&& raw == 93
            &&& total_bits(c.channels) == 27
            &&& c.bytes_per_pixel == 4
            &&& !c.byte_aligned
        },
{
    if raw == 93 {
        reveal_with_fuel(total_bits, 4);
    } else {
        assert forall|l: Layout| #[trigger] total_bits(layout_channels(l)) <= 1020 by {
            lemma_layout_bits_bound(l);
        }
    }
}

/// Whether a name ends in the five characters `_sRGB`.
pub open spec fn ends_in_srgb(name: Seq<char>) -> bool {
    &&& name.len() >= 5
    &&& name[name.len() - 5] == '_'
    &&& name[name.len() - 4] == 's'
    &&& name[name.len() - 3] == 'R'
    &&& name[name.len() - 2] == 'G'
    &&& name[name.len() - 1] == 'B'
}

/// The sRGB transfer flag a format's structure carries: a colour or a
/// compressed format's own flag; no other kind has one.
pub open spec fn kind_is_srgb(k: FormatKindView) -> bool {
    match k {
        FormatKindView::Color(c) => c.srgb,
        FormatKindView::Compressed(c) => c.srgb,
        _ => false,
    }
}

/// A format is marked sRGB exactly when its canonical Metal name ends in
/// `_sRGB`; a code with no name is never marked sRGB.
#[verifier::rlimit(100)]
#[verifier::spinoff_prover]
pub proof fn lemma_srgb_follows_name(raw: u32)
    ensures
        spec_name(raw) matches Some(n) ==> (kind_is_srgb(spec_format_kind(raw)) <==> ends_in_srgb(n@)),
        spec_name(raw) is None ==> !kind_is_srgb(spec_format_kind(raw)),
{
    match raw {
        1 => {
            reveal_strlit("A8Unorm");
        },
        10 => {
            reveal_strlit("R8Unorm");
        },
        11 => {
            reveal_strlit("R8Unorm_sRGB");
        },
        12 => {
            reveal_strlit("R8Snorm");
        },
        13 => {
            reveal_strlit("R8Uint");
        },
        14 => {
            reveal_strlit("R8Sint");
        },
        20 => {
            reveal_strlit("R16Unorm");
        },
        22 => {
            reveal_strlit("R16Snorm");
        },
        23 => {
            reveal_strlit("R16Uint");
        },
        24 => {
            reveal_strlit("R16Sint");
        },
        25 => {
            reveal_strlit("R16Float");
        },
        53 => {
            reveal_strlit("R32Uint");
        },
        54 => {
            reveal_strlit("R32Sint");
        },
        55 => {
            reveal_strlit("R32Float");
        },
        30 => {
            reveal_strlit("RG8Unorm");
        },
        31 => {
            reveal_strlit("RG8Unorm_sRGB");
        },
        32 => {
            reveal_strlit("RG8Snorm");
        },
        33 => {
            reveal_strlit("RG8Uint");
        },
        34 => {
            reveal_strlit("RG8Sint");
        },
        60 => {
            reveal_strlit("RG16Unorm");
        },
        62 => {
            reveal_strlit("RG16Snorm");
        },
        63 => {
            reveal_strlit("RG16Uint");
        },
        64 => {
            reveal_strlit("RG16Sint");
        },
        65 => {
            reveal_strlit("RG16Float");
        },
        103 => {
            reveal_strlit("RG32Uint");
        },
        104 => {
            reveal_strlit("RG32Sint");
        },
        105 => {
            reveal_strlit("RG32Float");
        },
        40 => {
            reveal_strlit("B5G6R5Unorm");
        },
        41 => {
            reveal_strlit("A1BGR5Unorm");
        },
        42 => {
            reveal_strlit("ABGR4Unorm");
        },
        43 => {
            reveal_strlit("BGR5A1Unorm");
        },
        70 => {
            reveal_strlit("RGBA8Unorm");
        },
        71 => {
            reveal_strlit("RGBA8Unorm_sRGB");
        },
        72 => {
            reveal_strlit("RGBA8Snorm");
        },
        73 => {
            reveal_strlit("RGBA8Uint");
        },
        74 => {
            reveal_strlit("RGBA8Sint");
        },
        80 => {
            reveal_strlit("BGRA8Unorm");
        },
        81 => {
            reveal_strlit("BGRA8Unorm_sRGB");
        },
        90 => {
            reveal_strlit("RGB10A2Unorm");
        },
        91 => {
            reveal_strlit("RGB10A2Uint");
        },
        92 => {
            reveal_strlit("RG11B10Float");
        },
        93 => {
            reveal_strlit("RGB9E5Float");
        },
        94 => {
            reveal_strlit("BGR10A2Unorm");
        },
        110 => {
            reveal_strlit("RGBA16Unorm");
        },
        112 => {
            reveal_strlit("RGBA16Snorm");
        },
        113 => {
            reveal_strlit("RGBA16Uint");
        },
        114 => {
            reveal_strlit("RGBA16Sint");
        },
        115 => {
            reveal_strlit("RGBA16Float");
        },
        123 => {
            reveal_strlit("RGBA32Uint");
        },
        124 => {
            reveal_strlit("RGBA32Sint");
        },
        125 => {
            reveal_strlit("RGBA32Float");
        },
        130 => {
            reveal_strlit("BC1_RGBA");
        },
        131 => {
            reveal_strlit("BC1_RGBA_sRGB");
        },
        132 => {
            reveal_strlit("BC2_RGBA");
        },
        133 => {
            reveal_strlit("BC2_RGBA_sRGB");
        },
        134 => {
            reveal_strlit("BC3_RGBA");
        },
        135 => {
            reveal_strlit("BC3_RGBA_sRGB");
        },
        140 => {
            reveal_strlit("BC4_RUnorm");
        },
        141 => {
            reveal_strlit("BC4_RSnorm");
        },
        142 => {
            reveal_strlit("BC5_RGUnorm");
        },
        143 => {
            reveal_strlit("BC5_RGSnorm");
        },
        150 => {
            reveal_strlit("BC6H_RGBFloat");
        },
        151 => {
            reveal_strlit("BC6H_RGBUfloat");
        },
        152 => {
            reveal_strlit("BC7_RGBAUnorm");
        },
        153 => {
            reveal_strlit("BC7_RGBAUnorm_sRGB");
        },
        160 => {
            reveal_strlit("PVRTC_RGB_2BPP");
        },
        161 => {
            reveal_strlit("PVRTC_RGB_2BPP_sRGB");
        },
        162 => {
            reveal_strlit("PVRTC_RGB_4BPP");
        },
        163 => {
            reveal_strlit("PVRTC_RGB_4BPP_sRGB");
        },
        164 => {
            reveal_strlit("PVRTC_RGBA_2BPP");
        },
        165 => {
            reveal_strlit("PVRTC_RGBA_2BPP_sRGB");
        },
        166 => {
            reveal_strlit("PVRTC_RGBA_4BPP");
        },
        167 => {
            reveal_strlit("PVRTC_RGBA_4BPP_sRGB");
        },
        170 => {
            reveal_strlit("EAC_R11Unorm");
        },
        172 => {
            reveal_strlit("EAC_R11Snorm");
        },
        174 => {
            reveal_strlit("EAC_RG11Unorm");
        },
        176 => {
            reveal_strlit("EAC_RG11Snorm");
        },
        178 => {
            reveal_strlit("EAC_RGBA8");
        },
        179 => {
            reveal_strlit("EAC_RGBA8_sRGB");
        },
        180 => {
            reveal_strlit("ETC2_RGB8");
        },
        181 => {
            reveal_strlit("ETC2_RGB8_sRGB");
        },
        182 => {
            reveal_strlit("ETC2_RGB8A1");
        },
        183 => {
            reveal_strlit("ETC2_RGB8A1_sRGB");
        },
        186 => {
            reveal_strlit("ASTC_4x4_sRGB");
        },
        187 => {
            reveal_strlit("ASTC_5x4_sRGB");
        },
        188 => {
            reveal_strlit("ASTC_5x5_sRGB");
        },
        189 => {
            reveal_strlit("ASTC_6x5_sRGB");
        },
        190 => {
            reveal_strlit("ASTC_6x6_sRGB");
        },
        192 => {
            reveal_strlit("ASTC_8x5_sRGB");
        },
        193 => {
            reveal_strlit("ASTC_8x6_sRGB");
        },
        194 => {
            reveal_strlit("ASTC_8x8_sRGB");
        },
        195 => {
            reveal_strlit("ASTC_10x5_sRGB");
        },
        196 => {
            reveal_strlit("ASTC_10x6_sRGB");
        },
        197 => {
            reveal_strlit("ASTC_10x8_sRGB");
        },
        198 => {
            reveal_strlit("ASTC_10x10_sRGB");
        },
        199 => {
            reveal_strlit("ASTC_12x10_sRGB");
        },
        200 => {
            reveal_strlit("ASTC_12x12_sRGB");
        },
        204 => {
            reveal_strlit("ASTC_4x4_LDR");
        },
        205 => {
            reveal_strlit("ASTC_5x4_LDR");
        },
        206 => {
            reveal_strlit("ASTC_5x5_LDR");
        },
        207 => {
            reveal_strlit("ASTC_6x5_LDR");
        },
        208 => {
            reveal_strlit("ASTC_6x6_LDR");
        },
        210 => {
            reveal_strlit("ASTC_8x5_LDR");
        },
        211 => {
            reveal_strlit("ASTC_8x6_LDR");
        },
        212 => {
            reveal_strlit("ASTC_8x8_LDR");
        },
        213 => {
            reveal_strlit("ASTC_10x5_LDR");
        },
        214 => {
            reveal_strlit("ASTC_10x6_LDR");
        },
        215 => {
            reveal_strlit("ASTC_10x8_LDR");
        },
        216 => {
            reveal_strlit("ASTC_10x10_LDR");
        },
        217 => {
            reveal_strlit("ASTC_12x10_LDR");
        },
        218 => {
            reveal_strlit("ASTC_12x12_LDR");
        },
        222 => {
            reveal_strlit("ASTC_4x4_HDR");
        },
        223 => {
            reveal_strlit("ASTC_5x4_HDR");
        },
        224 => {
            reveal_strlit("ASTC_5x5_HDR");
        },
        225 => {
            reveal_strlit("ASTC_6x5_HDR");
        },
        226 => {
            reveal_strlit("ASTC_6x6_HDR");
        },
        228 => {
            reveal_strlit("ASTC_8x5_HDR");
        },
        229 => {
            reveal_strlit("ASTC_8x6_HDR");
        },
        230 => {
            reveal_strlit("ASTC_8x8_HDR");
        },
        231 => {
            reveal_strlit("ASTC_10x5_HDR");
        },
        232 => {
            reveal_strlit("ASTC_10x6_HDR");
        },
        233 => {
            reveal_strlit("ASTC_10x8_HDR");
        },
        234 => {
            reveal_strlit("ASTC_10x10_HDR");
        },
        235 => {
            reveal_strlit("ASTC_12x10_HDR");
        },
        236 => {
            reveal_strlit("ASTC_12x12_HDR");
        },
        250 => {
            reveal_strlit("Depth16Unorm");
        },
        252 => {
            reveal_strlit("Depth32Float");
        },
        253 => {
            reveal_strlit("Stencil8");
        },
        260 => {
            reveal_strlit("Depth32Float_Stencil8");
        },
        261 => {
            reveal_strlit("X32_Stencil8");
        },
        262 => {
            reveal_strlit("X24_Stencil8");
        },
        _ => {},
    }
}

/// Where the body of a format name ends: before its `_sRGB` suffix, if any.
pub open spec fn name_body_end(n: Seq<char>) -> int {
    if ends_in_srgb(n) {
        n.len() - 5
    } else {
        n.len() as int
    }
}

/// The numeric encoding a colour format's name ends its body with: `Unorm`,
/// `Snorm`, `Uint`, `Sint` or `Float`.
pub open spec fn name_numeric(n: Seq<char>) -> Option<NumericKind> {
    let m = name_body_end(n);
    if m >= 5 && n[m - 5] == 'U' && n[m - 4] == 'n' && n[m - 3] == 'o' && n[m - 2] == 'r' && n[m - 1]
        == 'm' {
        Some(NumericKind::Unorm)
    } else if m >= 5 && n[m - 5] == 'S' && n[m - 4] == 'n' && n[m - 3] == 'o' && n[m - 2] == 'r'
        && n[m - 1] == 'm' {
        Some(NumericKind::Snorm)
    } else if m >= 4 && n[m - 4] == 'U' && n[m - 3] == 'i' && n[m - 2] == 'n' && n[m - 1] == 't' {
        Some(NumericKind::Uint)
    } else if m >= 4 && n[m - 4] == 'S' && n[m - 3] == 'i' && n[m - 2] == 'n' && n[m - 1] == 't' {
        Some(NumericKind::Sint)
    } else if m >= 5 && n[m - 5] == 'F' && n[m - 4] == 'l' && n[m - 3] == 'o' && n[m - 2] == 'a'
        && n[m - 1] == 't' {
        Some(NumericKind::Float)
    } else {
        None
    }
}

/// How many characters the numeric word of a name takes.
pub open spec fn numeric_word_len(k: NumericKind) -> int {
    match k {
        NumericKind::Uint | NumericKind::Sint => 4,
        _ => 5,
    }
}

/// The component a layout letter names.
pub open spec fn letter_component(ch: char) -> Option<Component> {
    if ch == 'R' {
        Some(Component::R)
    } else if ch == 'G' {
        Some(Component::G)
    } else if ch == 'B' {
        Some(Component::B)
    } else if ch == 'A' {
        Some(Component::A)
    } else {
        None
    }
}

/// The channels the layout part `n[0..end]` of a name spells: each run of
/// component letters is followed by the bit width all of them take (as in
/// `RGBA8`, `B5G6R5`, `RGB10A2`). Read from the end: `num` is the width
/// read so far, `scale` the weight of the next digit, and `in_digits`
/// whether the last character read was a digit.
pub open spec fn spelled_channels(n: Seq<char>, end: int, num: int, scale: int, in_digits: bool) -> Seq<
    Channel,
>
    decreases end,
{
    if end <= 0 || end > n.len() {
        Seq::empty()
    } else {
        let ch = n[end - 1];
        if '0' <= ch && ch <= '9' {
            let d = (ch as int) - ('0' as int);
            if in_digits {
                spelled_channels(n, end - 1, num + d * scale, scale * 10, true)
            } else {
                spelled_channels(n, end - 1, d, 10, true)
            }
        } else {
            match letter_component(ch) {
                Some(c) => spelled_channels(n, end - 1, num, scale, false).push(
                    Channel { component: c, bits: num as u8 },
                ),
                None => spelled_channels(n, end - 1, num, scale, false),
            }
        }
    }
}

/// A colour format's structure is what its canonical name spells: its
/// channels are the components and bit widths of the name's layout part,
/// in order, and its numeric encoding is the word that ends the name's body
/// (the shared-exponent RGB9E5Float, whose exponent is no channel, aside).
#[verifier::rlimit(100)]
#[verifier::spinoff_prover]
pub proof fn lemma_color_follows_name(raw: u32)
    ensures
        raw != 93 ==> (spec_format_kind(raw) matches FormatKindView::Color(c) ==> (spec_name(raw) matches Some(n)
            && name_numeric(n@) == Some(c.numeric) && c.channels == spelled_channels(
            n@,
            name_body_end(n@) - numeric_word_len(c.numeric),
            0,
            1,
            false,
        ))),
{
    reveal_with_fuel(spelled_channels, 8);
    match raw {
        1 => {
            reveal_strlit("A8Unorm");
        },
        10 => {
            reveal_strlit("R8Unorm");
        },
        11 => {
            reveal_strlit("R8Unorm_sRGB");
        },
        12 => {
            reveal_strlit("R8Snorm");
        },
        13 => {
            reveal_strlit("R8Uint");
        },
        14 => {
            reveal_strlit("R8Sint");
        },
        20 => {
            reveal_strlit("R16Unorm");
        },
        22 => {
            reveal_strlit("R16Snorm");
        },
        23 => {
            reveal_strlit("R16Uint");
        },
        24 => {
            reveal_strlit("R16Sint");
        },
        25 => {
            reveal_strlit("R16Float");
        },
        53 => {
            reveal_strlit("R32Uint");
        },
        54 => {
            reveal_strlit("R32Sint");
        },
        55 => {
            reveal_strlit("R32Float");
        },
        30 => {
            reveal_strlit("RG8Unorm");
        },
        31 => {
            reveal_strlit("RG8Unorm_sRGB");
        },
        32 => {
            reveal_strlit("RG8Snorm");
        },
        33 => {
            reveal_strlit("RG8Uint");
        },
        34 => {
            reveal_strlit("RG8Sint");
        },
        60 => {
            reveal_strlit("RG16Unorm");
        },
        62 => {
            reveal_strlit("RG16Snorm");
        },
        63 => {
            reveal_strlit("RG16Uint");
        },
        64 => {
            reveal_strlit("RG16Sint");
        },
        65 => {
            reveal_strlit("RG16Float");
        },
        103 => {
            reveal_strlit("RG32Uint");
        },
        104 => {
            reveal_strlit("RG32Sint");
        },
        105 => {
            reveal_strlit("RG32Float");
        },
        40 => {
            reveal_strlit("B5G6R5Unorm");
        },
        41 => {
            reveal_strlit("A1BGR5Unorm");
        },
        42 => {
            reveal_strlit("ABGR4Unorm");
        },
        43 => {
            reveal_strlit("BGR5A1Unorm");
        },
        70 => {
            reveal_strlit("RGBA8Unorm");
        },
        71 => {
            reveal_strlit("RGBA8Unorm_sRGB");
        },
        72 => {
            reveal_strlit("RGBA8Snorm");
        },
        73 => {
            reveal_strlit("RGBA8Uint");
        },
        74 => {
            reveal_strlit("RGBA8Sint");
        },
        80 => {
            reveal_strlit("BGRA8Unorm");
        },
        81 => {
            reveal_strlit("BGRA8Unorm_sRGB");
        },
        90 => {
            reveal_strlit("RGB10A2Unorm");
        },
        91 => {
            reveal_strlit("RGB10A2Uint");
        },
        92 => {
            reveal_strlit("RG11B10Float");
        },
        94 => {
            reveal_strlit("BGR10A2Unorm");
        },
        110 => {
            reveal_strlit("RGBA16Unorm");
        },
        112 => {
            reveal_strlit("RGBA16Snorm");
        },
        113 => {
            reveal_strlit("RGBA16Uint");
        },
        114 => {
            reveal_strlit("RGBA16Sint");
        },
        115 => {
            reveal_strlit("RGBA16Float");
        },
        123 => {
            reveal_strlit("RGBA32Uint");
        },
        124 => {
            reveal_strlit("RGBA32Sint");
        },
        125 => {
            reveal_strlit("RGBA32Float");
        },
        _ => {},
    }
}

/// The value of a decimal digit character.
pub open spec fn digit(ch: char) -> int {
    (ch as int) - ('0' as int)
}

/// The block width and height an ASTC name spells after its `ASTC_`
/// prefix, as in `ASTC_10x8_LDR`.
pub open spec fn astc_name_block(n: Seq<char>) -> (int, int) {
    let (w, h_at) = if n[6] == 'x' {
        (digit(n[5]), 7int)
    } else {
        (digit(n[5]) * 10 + digit(n[6]), 8int)
    };
    let h = if n[h_at + 1] == '_' {
        digit(n[h_at])
    } else {
        digit(n[h_at]) * 10 + digit(n[h_at + 1])
    };
    (w, h)
}

/// The compression scheme a name's prefix names: `ASTC_`, `BC`, `PVRTC_`,
/// `EAC_` or `ETC2_`.
pub open spec fn name_scheme(n: Seq<char>) -> Option<CompressionScheme> {
    if n.len() >= 5 && n[0] == 'A' && n[1] == 'S' && n[2] == 'T' && n[3] == 'C' && n[4] == '_' {
        Some(CompressionScheme::Astc)
    } else if n.len() >= 6 && n[0] == 'P' && n[1] == 'V' && n[2] == 'R' && n[3] == 'T' && n[4] == 'C'
        && n[5] == '_' {
        Some(CompressionScheme::Pvrtc)
    } else if n.len() >= 4 && n[0] == 'E' && n[1] == 'A' && n[2] == 'C' && n[3] == '_' {
        Some(CompressionScheme::Eac)
    } else if n.len() >= 5 && n[0] == 'E' && n[1] == 'T' && n[2] == 'C' && n[3] == '2' && n[4] == '_' {
        Some(CompressionScheme::Etc2)
    } else if n.len() >= 2 && n[0] == 'B' && n[1] == 'C' {
        Some(CompressionScheme::Bc)
    } else {
        None
    }
}

/// The bits per pixel a PVRTC name spells just before `BPP` at the end of
/// its body, as in `PVRTC_RGBA_2BPP`.
pub open spec fn pvrtc_name_bpp(n: Seq<char>) -> int {
    digit(n[name_body_end(n) - 4])
}

/// A compressed format's structure is what its canonical name spells: the
/// scheme its prefix names; for ASTC, the block its name spells, of 16
/// bytes; for PVRTC, blocks four texels high whose bytes carry as many bits
/// per texel as the name says; every other scheme in 4x4 blocks.
#[verifier::rlimit(100)]
#[verifier::spinoff_prover]
pub proof fn lemma_compressed_follows_name(raw: u32)
    ensures
        spec_format_kind(raw) matches FormatKindView::Compressed(c) ==> (spec_name(raw) matches Some(n)
            && name_scheme(n@) == Some(c.scheme) && (c.scheme == CompressionScheme::Astc ==> (
        c.block.0 as int, c.block.1 as int) == astc_name_block(n@) && c.block_bytes == 16) && (c.scheme
            == CompressionScheme::Pvrtc ==> c.block.1 == 4 && c.block_bytes * 8 == pvrtc_name_bpp(n@)
            * c.block.0 * c.block.1) && (c.scheme != CompressionScheme::Astc && c.scheme
            != CompressionScheme::Pvrtc ==> c.block == (4u8, 4u8))),
{
    match raw {
        130 => {
            reveal_strlit("BC1_RGBA");
        },
        131 => {
            reveal_strlit("BC1_RGBA_sRGB");
        },
        132 => {
            reveal_strlit("BC2_RGBA");
        },
        133 => {
            reveal_strlit("BC2_RGBA_sRGB");
        },
        134 => {
            reveal_strlit("BC3_RGBA");
        },
        135 => {
            reveal_strlit("BC3_RGBA_sRGB");
        },
        140 => {
            reveal_strlit("BC4_RUnorm");
        },
        141 => {
            reveal_strlit("BC4_RSnorm");
        },
        142 => {
            reveal_strlit("BC5_RGUnorm");
        },
        143 => {
            reveal_strlit("BC5_RGSnorm");
        },
        150 => {
            reveal_strlit("BC6H_RGBFloat");
        },
        151 => {
            reveal_strlit("BC6H_RGBUfloat");
        },
        152 => {
            reveal_strlit("BC7_RGBAUnorm");
        },
        153 => {
            reveal_strlit("BC7_RGBAUnorm_sRGB");
        },
        160 => {
            reveal_strlit("PVRTC_RGB_2BPP");
        },
        161 => {
            reveal_strlit("PVRTC_RGB_2BPP_sRGB");
        },
        162 => {
            reveal_strlit("PVRTC_RGB_4BPP");
        },
        163 => {
            reveal_strlit("PVRTC_RGB_4BPP_sRGB");
        },
        164 => {
            reveal_strlit("PVRTC_RGBA_2BPP");
        },
        165 => {
            reveal_strlit("PVRTC_RGBA_2BPP_sRGB");
        },
        166 => {
            reveal_strlit("PVRTC_RGBA_4BPP");
        },
        167 => {
            reveal_strlit("PVRTC_RGBA_4BPP_sRGB");
        },
        170 => {
            reveal_strlit("EAC_R11Unorm");
        },
        172 => {
            reveal_strlit("EAC_R11Snorm");
        },
        174 => {
            reveal_strlit("EAC_RG11Unorm");
        },
        176 => {
            reveal_strlit("EAC_RG11Snorm");
        },
        178 => {
            reveal_strlit("EAC_RGBA8");
        },
        179 => {
            reveal_strlit("EAC_RGBA8_sRGB");
        },
        180 => {
            reveal_strlit("ETC2_RGB8");
        },
        181 => {
            reveal_strlit("ETC2_RGB8_sRGB");
        },
        182 => {
            reveal_strlit("ETC2_RGB8A1");
        },
        183 => {
            reveal_strlit("ETC2_RGB8A1_sRGB");
        },
        186 => {
            reveal_strlit("ASTC_4x4_sRGB");
        },
        187 => {
            reveal_strlit("ASTC_5x4_sRGB");
        },
        188 => {
            reveal_strlit("ASTC_5x5_sRGB");
        },
        189 => {
            reveal_strlit("ASTC_6x5_sRGB");
        },
        190 => {
            reveal_strlit("ASTC_6x6_sRGB");
        },
        192 => {
            reveal_strlit("ASTC_8x5_sRGB");
        },
        193 => {
            reveal_strlit("ASTC_8x6_sRGB");
        },
        194 => {
            reveal_strlit("ASTC_8x8_sRGB");
        },
        195 => {
            reveal_strlit("ASTC_10x5_sRGB");
        },
        196 => {
            reveal_strlit("ASTC_10x6_sRGB");
        },
        197 => {
            reveal_strlit("ASTC_10x8_sRGB");
        },
        198 => {
            reveal_strlit("ASTC_10x10_sRGB");
        },
        199 => {
            reveal_strlit("ASTC_12x10_sRGB");
        },
        200 => {
            reveal_strlit("ASTC_12x12_sRGB");
        },
        204 => {
            reveal_strlit("ASTC_4x4_LDR");
        },
        205 => {
            reveal_strlit("ASTC_5x4_LDR");
        },
        206 => {
            reveal_strlit("ASTC_5x5_LDR");
        },
        207 => {
            reveal_strlit("ASTC_6x5_LDR");
        },
        208 => {
            reveal_strlit("ASTC_6x6_LDR");
        },
        210 => {
            reveal_strlit("ASTC_8x5_LDR");
        },
        211 => {
            reveal_strlit("ASTC_8x6_LDR");
        },
        212 => {
            reveal_strlit("ASTC_8x8_LDR");
        },
        213 => {
            reveal_strlit("ASTC_10x5_LDR");
        },
        214 => {
            reveal_strlit("ASTC_10x6_LDR");
        },
        215 => {
            reveal_strlit("ASTC_10x8_LDR");
        },
        216 => {
            reveal_strlit("ASTC_10x10_LDR");
        },
        217 => {
            reveal_strlit("ASTC_12x10_LDR");
        },
        218 => {
            reveal_strlit("ASTC_12x12_LDR");
        },
        222 => {
            reveal_strlit("ASTC_4x4_HDR");
        },
        223 => {
            reveal_strlit("ASTC_5x4_HDR");
        },
        224 => {
            reveal_strlit("ASTC_5x5_HDR");
        },
        225 => {
            reveal_strlit("ASTC_6x5_HDR");
        },
        226 => {
            reveal_strlit("ASTC_6x6_HDR");
        },
        228 => {
            reveal_strlit("ASTC_8x5_HDR");
        },
        229 => {
            reveal_strlit("ASTC_8x6_HDR");
        },
        230 => {
            reveal_strlit("ASTC_8x8_HDR");
        },
        231 => {
            reveal_strlit("ASTC_10x5_HDR");
        },
        232 => {
            reveal_strlit("ASTC_10x6_HDR");
        },
        233 => {
            reveal_strlit("ASTC_10x8_HDR");
        },
        234 => {
            reveal_strlit("ASTC_10x10_HDR");
        },
        235 => {
            reveal_strlit("ASTC_12x10_HDR");
        },
        236 => {
            reveal_strlit("ASTC_12x12_HDR");
        },
        _ => {},
    }
}

/// A depth or stencil format's aspects are what its canonical name spells:
/// a 16-bit normalized depth when the name starts with `Depth16`, a 32-bit
/// float depth when it starts with `Depth32`, no depth otherwise; and an
/// 8-bit stencil exactly when the name ends with `Stencil8`.
#[verifier::rlimit(100)]
pub proof fn lemma_depth_stencil_follows_name(raw: u32)
    ensures
        spec_format_kind(raw) matches FormatKindView::DepthStencil(d) ==> (spec_name(raw) matches Some(n)
            && {
            let s = n@;
            let depth_named = s.len() >= 7 && s[0] == 'D' && s[1] == 'e' && s[2] == 'p' && s[3] == 't'
                && s[4] == 'h';
            &&& (depth_named && s[5] == '1' && s[6] == '6') <==> d.depth == Some(DepthKind::Unorm16)
            &&& (depth_named && s[5] == '3' && s[6] == '2') <==> d.depth == Some(DepthKind::Float32)
            &&& (s.len() >= 8 && s[s.len() - 8] == 'S' && s[s.len() - 7] == 't' && s[s.len() - 6] == 'e'
                && s[s.len() - 5] == 'n' && s[s.len() - 4] == 'c' && s[s.len() - 3] == 'i' && s[s.len()
                - 2] == 'l' && s[s.len() - 1] == '8') <==> d.stencil == Some(StencilKind::Uint8)
        }),
{
    match raw {
        250 => {
            reveal_strlit("Depth16Unorm");
        },
        252 => {
            reveal_strlit("Depth32Float");
        },
        253 => {
            reveal_strlit("Stencil8");
        },
        260 => {
            reveal_strlit("Depth32Float_Stencil8");
        },
        261 => {
            reveal_strlit("X32_Stencil8");
        },
        262 => {
            reveal_strlit("X24_Stencil8");
        },
        _ => {},
    }
}

/// The canonical Metal name of every `MTLTextureType` code the table describes.
pub open spec fn spec_texture_type_name(raw: u64) -> Option<&'static str> {
    match raw {
        0 => Some("Type1D"),
        1 => Some("Type1DArray"),
        2 => Some("Type2D"),
        3 => Some("Type2DArray"),
        4 => Some("Type2DMultisample"),
        5 => Some("TypeCube"),
        6 => Some("TypeCubeArray"),
        7 => Some("Type3D"),
        8 => Some("Type2DMultisampleArray"),
        9 => Some("TypeTextureBuffer"),
        _ => None,
    }
}

/// The canonical Metal name for a known raw `MTLTextureType` value, `None`
/// for a raw value the table does not describe.
pub fn texture_type_name(raw: u64) -> (r: Option<&'static str>)
    ensures
        r == spec_texture_type_name(raw),
{
    match raw {
        0 => Some("Type1D"),
        1 => Some("Type1DArray"),
        2 => Some("Type2D"),
        3 => Some("Type2DArray"),
        4 => Some("Type2DMultisample"),
        5 => Some("TypeCube"),
        6 => Some("TypeCubeArray"),
        7 => Some("Type3D"),
        8 => Some("Type2DMultisampleArray"),
        9 => Some("TypeTextureBuffer"),
        _ => None,
    }
}

/// The name of `flag` when bit `flag` is set in `raw`, else nothing.
pub open spec fn flag_name_if_set(raw: u64, flag: u64, name: &'static str) -> Seq<&'static str> {
    if raw & flag != 0 {
        seq![name]
    } else {
        seq![]
    }
}

/// The names of the recognised `MTLTextureUsage` bits set in `raw`, in the
/// order `ShaderRead`, `ShaderWrite`, `RenderTarget`, `PixelFormatView`,
/// `ShaderAtomic`.
pub open spec fn spec_usage_flag_names(raw: u64) -> Seq<&'static str> {
    flag_name_if_set(raw, 0x0001, "ShaderRead")
        + flag_name_if_set(raw, 0x0002, "ShaderWrite")
        + flag_name_if_set(raw, 0x0004, "RenderTarget")
        + flag_name_if_set(raw, 0x0010, "PixelFormatView")
        + flag_name_if_set(raw, 0x0020, "ShaderAtomic")
}

/// The names of `raw`'s set `MTLTextureUsage` bits, in a stable order
/// (`ShaderRead`, `ShaderWrite`, `RenderTarget`, `PixelFormatView`,
/// `ShaderAtomic`). Empty for `Unknown` (0) or any combination of
/// unrecognised bits.
pub fn usage_flag_names(raw: u64) -> (r: Vec<&'static str>)
    ensures
        r@ == spec_usage_flag_names(raw),
{
    let mut out: Vec<&'static str> = Vec::new();
    if raw & 0x0001 != 0 {
        out.push("ShaderRead");
    }
    assert(out@ =~= flag_name_if_set(raw, 0x0001, "ShaderRead"));
    let ghost a = out@;
    if raw & 0x0002 != 0 {
        out.push("ShaderWrite");
    }
    assert(out@ =~= a + flag_name_if_set(raw, 0x0002, "ShaderWrite"));
    let ghost b = out@;
    if raw & 0x0004 != 0 {
        out.push("RenderTarget");
    }
    assert(out@ =~= b + flag_name_if_set(raw, 0x0004, "RenderTarget"));
    let ghost c = out@;
    if raw & 0x0010 != 0 {
        out.push("PixelFormatView");
    }
    assert(out@ =~= c + flag_name_if_set(raw, 0x0010, "PixelFormatView"));
    let ghost d = out@;
    if raw & 0x0020 != 0 {
        out.push("ShaderAtomic");
    }
    assert(out@ =~= d + flag_name_if_set(raw, 0x0020, "ShaderAtomic"));
    out
}

} // verus!
