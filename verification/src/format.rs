//! Pixel layouts, buffer-layout modifiers, and the negotiated stream format.
//!
//! The pipeline supports a fixed enumeration of packed pixel layouts.  A
//! fixed bijective table translates each layout into the import layer's
//! DRM fourcc tag and into the readback layer's channel-order tag.

use vstd::prelude::*;

verus! {

/// The reserved 64-bit modifier value meaning "linear / no modifier".
pub const MODIFIER_NONE: u64 = 0x00FF_FFFF_FFFF_FFFF;

/// A buffer-layout modifier: either the linear/no-modifier fallback or a
/// vendor-specific 64-bit tag.
#[derive(Clone, Copy, Debug, PartialEq, Eq, Structural)]
pub enum Modifier {
    NoModifier,
    Specific(u64),
}

impl Modifier {
    pub open spec fn from_raw_spec(raw: u64) -> Modifier {
        if raw == MODIFIER_NONE {
            Modifier::NoModifier
        } else {
            Modifier::Specific(raw)
        }
    }

    /// Decode a raw 64-bit modifier, folding the reserved sentinel into the
    /// explicit no-modifier variant.
    pub fn from_raw(raw: u64) -> (m: Modifier)
        ensures
            m == Modifier::from_raw_spec(raw),
    {
        if raw == MODIFIER_NONE {
            Modifier::NoModifier
        } else {
            Modifier::Specific(raw)
        }
    }

    pub open spec fn to_raw_spec(self) -> u64 {
        match self {
            Modifier::NoModifier => MODIFIER_NONE,
            Modifier::Specific(raw) => raw,
        }
    }

    /// Encode back to the raw 64-bit wire value.
    pub fn to_raw(self) -> (raw: u64)
        ensures
            raw == self.to_raw_spec(),
    {
        match self {
            Modifier::NoModifier => MODIFIER_NONE,
            Modifier::Specific(raw) => raw,
        }
    }
}

/// Round trip: decoding a raw modifier and encoding it again gives the raw
/// value back, provided a specific modifier never carries the reserved
/// sentinel value (which `from_raw` always folds away).
pub proof fn lemma_modifier_raw_round_trip(raw: u64)
    ensures
        Modifier::from_raw_spec(raw).to_raw_spec() == raw,
{
}

/// The stream's fixed enumeration of supported packed pixel layouts.
#[derive(Clone, Copy, Debug, PartialEq, Eq, Structural)]
pub enum PixelLayout {
    /// Packed 32-bit red/green/blue/alpha.
    Rgba,
    /// Packed 32-bit blue/green/red/alpha.
    Bgra,
    /// Packed 32-bit red/green/blue/padding.
    Rgbx,
    /// Packed 32-bit blue/green/red/padding.
    Bgrx,
    /// Packed 24-bit red/green/blue.
    Rgb,
    /// Packed 24-bit blue/green/red.
    Bgr,
}

impl PixelLayout {
    /// Only the four packed 32-bit layouts take part in format negotiation.
    pub open spec fn is_negotiable(self) -> bool {
        match self {
            PixelLayout::Rgba | PixelLayout::Bgra | PixelLayout::Rgbx | PixelLayout::Bgrx => true,
            PixelLayout::Rgb | PixelLayout::Bgr => false,
        }
    }
}

/// DRM fourcc tag for packed ABGR, little endian ("AB24").
pub const DRM_FORMAT_ABGR8888: i32 = 0x3432_4241;

/// DRM fourcc tag for packed XBGR, little endian ("XB24").
pub const DRM_FORMAT_XBGR8888: i32 = 0x3432_4258;

/// DRM fourcc tag for packed ARGB, little endian ("AR24").
pub const DRM_FORMAT_ARGB8888: i32 = 0x3432_5241;

/// DRM fourcc tag for packed XRGB, little endian ("XR24").
pub const DRM_FORMAT_XRGB8888: i32 = 0x3432_5258;

pub open spec fn drm_format_spec(layout: PixelLayout) -> Option<i32> {
    match layout {
        PixelLayout::Rgba => Some(DRM_FORMAT_ABGR8888),
        PixelLayout::Rgbx => Some(DRM_FORMAT_XBGR8888),
        PixelLayout::Bgra => Some(DRM_FORMAT_ARGB8888),
        PixelLayout::Bgrx => Some(DRM_FORMAT_XRGB8888),
        PixelLayout::Rgb | PixelLayout::Bgr => None,
    }
}

/// Translate a stream pixel layout into the import layer's DRM fourcc tag.
/// The 24-bit layouts have no import-layer format and yield `None`.
pub fn spa_pixel_format_to_drm_format(layout: PixelLayout) -> (r: Option<i32>)
    ensures
        r == drm_format_spec(layout),
        r is Some <==> layout.is_negotiable(),
{
    match layout {
        PixelLayout::Rgba => Some(DRM_FORMAT_ABGR8888),
        PixelLayout::Rgbx => Some(DRM_FORMAT_XBGR8888),
        PixelLayout::Bgra => Some(DRM_FORMAT_ARGB8888),
        PixelLayout::Bgrx => Some(DRM_FORMAT_XRGB8888),
        PixelLayout::Rgb | PixelLayout::Bgr => None,
    }
}

/// The table from negotiable layouts to DRM fourcc tags is injective, so the
/// translation is a bijection between the four negotiable layouts and their
/// four fourcc tags.
pub proof fn lemma_drm_format_table_bijective(a: PixelLayout, b: PixelLayout)
    requires
        a.is_negotiable(),
        b.is_negotiable(),
        drm_format_spec(a) == drm_format_spec(b),
    ensures
        a == b,
{
}

/// Readback channel-order tag for red/green/blue/alpha.
pub const GL_RGBA: u32 = 0x1908;

/// Readback channel-order tag for blue/green/red/alpha.
pub const GL_BGRA: u32 = 0x80E1;

/// Readback channel-order tag for red/green/blue.
pub const GL_RGB: u32 = 0x1907;

/// Readback channel-order tag for blue/green/red.
pub const GL_BGR: u32 = 0x80E0;

pub open spec fn gl_format_spec(layout: PixelLayout) -> u32 {
    match layout {
        PixelLayout::Rgbx | PixelLayout::Rgba => GL_RGBA,
        PixelLayout::Bgrx | PixelLayout::Bgra => GL_BGRA,
        PixelLayout::Rgb => GL_RGB,
        PixelLayout::Bgr => GL_BGR,
    }
}

/// Translate a stream pixel layout into the readback layer's channel-order
/// tag.
pub fn drm_pixel_format_to_gl(layout: PixelLayout) -> (r: u32)
    ensures
        r == gl_format_spec(layout),
{
    match layout {
        PixelLayout::Rgbx | PixelLayout::Rgba => GL_RGBA,
        PixelLayout::Bgrx | PixelLayout::Bgra => GL_BGRA,
        PixelLayout::Rgb => GL_RGB,
        PixelLayout::Bgr => GL_BGR,
    }
}

/// A frame-rate rational.
#[derive(Clone, Copy, Debug, PartialEq, Eq, Structural)]
pub struct Fraction {
    pub num: u32,
    pub denom: u32,
}

/// Smallest width or height the negotiation offers.
pub const MIN_DIMENSION: u32 = 1;

/// Largest width or height the negotiation offers.
pub const MAX_DIMENSION: u32 = 4096;

/// Largest frame rate the negotiation offers, in frames per second.
pub const MAX_FRAMERATE: u32 = 1000;

/// The format chosen by the producer.  Once stored, it does not change for
/// the lifetime of a capture session.
#[derive(Clone, Copy, Debug, PartialEq, Eq, Structural)]
pub struct NegotiatedFormat {
    pub layout: PixelLayout,
    pub width: u32,
    pub height: u32,
    pub framerate: Fraction,
    pub modifier: Modifier,
}

impl NegotiatedFormat {
    /// Well-formedness: the chosen layout is one of the four negotiable
    /// layouts and every field lies inside the ranges the offer advertised.
    pub open spec fn wf(self) -> bool {
        &&& self.layout.is_negotiable()
        &&& MIN_DIMENSION <= self.width <= MAX_DIMENSION
        &&& MIN_DIMENSION <= self.height <= MAX_DIMENSION
        &&& self.framerate.num <= MAX_FRAMERATE
        &&& 1 <= self.framerate.denom
    }

    /// Byte length of one tightly packed output frame: four bytes per pixel.
    pub open spec fn frame_len(self) -> int {
        self.width * self.height * 4
    }

    /// Byte length of one tightly packed output frame.
    pub fn expected_frame_len(&self) -> (n: usize)
        requires
            self.wf(),
        ensures
            n == self.frame_len(),
    {
        proof {
            assert(self.width * self.height * 4 <= 4096 * 4096 * 4) by (nonlinear_arith)
                requires
                    self.width <= 4096,
                    self.height <= 4096,
            ;
            assert(self.width * self.height * 4 >= 0) by (nonlinear_arith);
        }
        (self.width as usize) * (self.height as usize) * 4
    }
}

/// Everything that can make a producer's format selection unacceptable.
#[derive(Clone, Copy, Debug, PartialEq, Eq, Structural)]
pub enum NegotiateError {
    /// The selected pixel layout is not one of the four negotiable layouts.
    UnsupportedLayout,
    /// Width or height lies outside the advertised rectangle range.
    SizeOutOfRange,
    /// The frame rate lies outside the advertised range.
    RateOutOfRange,
}

pub open spec fn parse_selection_spec(
    layout: PixelLayout,
    width: u32,
    height: u32,
    framerate: Fraction,
    raw_modifier: u64,
) -> Result<NegotiatedFormat, NegotiateError> {
    if !layout.is_negotiable() {
        Err(NegotiateError::UnsupportedLayout)
    } else if !(MIN_DIMENSION <= width <= MAX_DIMENSION && MIN_DIMENSION <= height
        <= MAX_DIMENSION) {
        Err(NegotiateError::SizeOutOfRange)
    } else if !(framerate.num <= MAX_FRAMERATE && 1 <= framerate.denom) {
        Err(NegotiateError::RateOutOfRange)
    } else {
        Ok(
            NegotiatedFormat {
                layout,
                width,
                height,
                framerate,
                modifier: Modifier::from_raw_spec(raw_modifier),
            },
        )
    }
}

/// Validate the producer's format selection and store it as the session's
/// negotiated format.  Succeeds exactly when the layout is negotiable and
/// the size and frame rate lie inside the advertised ranges; the resulting
/// format is well formed.
pub fn parse_format_selection(
    layout: PixelLayout,
    width: u32,
    height: u32,
    framerate: Fraction,
    raw_modifier: u64,
) -> (r: Result<NegotiatedFormat, NegotiateError>)
    ensures
        r == parse_selection_spec(layout, width, height, framerate, raw_modifier),
        r matches Ok(f) ==> f.wf(),
{
    let negotiable = spa_pixel_format_to_drm_format(layout).is_some();
    if !negotiable {
        Err(NegotiateError::UnsupportedLayout)
    } else if !(MIN_DIMENSION <= width && width <= MAX_DIMENSION && MIN_DIMENSION <= height
        && height <= MAX_DIMENSION) {
        Err(NegotiateError::SizeOutOfRange)
    } else if !(framerate.num <= MAX_FRAMERATE && 1 <= framerate.denom) {
        Err(NegotiateError::RateOutOfRange)
    } else {
        Ok(
            NegotiatedFormat {
                layout,
                width,
                height,
                framerate,
                modifier: Modifier::from_raw(raw_modifier),
            },
        )
    }
}

} // verus!
