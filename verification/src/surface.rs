//! Output surface formats and the rule that picks one.

use vstd::prelude::*;
use crate::format::{CHROMA_FORMAT_420, CHROMA_FORMAT_444};

verus! {

/// Memory layout of a decoded output surface.
#[allow(non_camel_case_types)]
#[derive(Clone, Copy, Debug, PartialEq, Eq, Structural)]
pub enum VideoSurfaceFormat {
    /// 4:2:0, 8 bits per sample, interleaved chroma.
    NV12,
    /// 4:2:0, 16 bits per sample, interleaved chroma.
    P016,
    /// 4:4:4, 8 bits per sample, planar.
    YUV444,
    /// 4:4:4, 16 bits per sample, planar.
    YUV444_16Bit,
}

impl VideoSurfaceFormat {
    /// The device's code of the format, which is also its bit position in a
    /// capability mask and its rank in the fallback order.
    pub open spec fn spec_code(self) -> u16 {
        match self {
            VideoSurfaceFormat::NV12 => 0,
            VideoSurfaceFormat::P016 => 1,
            VideoSurfaceFormat::YUV444 => 2,
            VideoSurfaceFormat::YUV444_16Bit => 3,
        }
    }

    #[verifier::when_used_as_spec(spec_code)]
    pub fn code(self) -> (c: u16)
        ensures
            c == self.spec_code(),
    {
        match self {
            VideoSurfaceFormat::NV12 => 0,
            VideoSurfaceFormat::P016 => 1,
            VideoSurfaceFormat::YUV444 => 2,
            VideoSurfaceFormat::YUV444_16Bit => 3,
        }
    }

    /// The format with the given code, if there is one.
    pub fn from_code(code: u16) -> (f: Option<VideoSurfaceFormat>)
        ensures
            code <= 3 ==> f.is_some() && f.unwrap().spec_code() == code,
            code > 3 ==> f.is_none(),
    {
        if code == 0 {
            Some(VideoSurfaceFormat::NV12)
        } else if code == 1 {
            Some(VideoSurfaceFormat::P016)
        } else if code == 2 {
            Some(VideoSurfaceFormat::YUV444)
        } else if code == 3 {
            Some(VideoSurfaceFormat::YUV444_16Bit)
        } else {
            None
        }
    }
}

/// Whether a capability mask has the bit of `format` set.
pub open spec fn spec_mask_allows(mask: u16, format: VideoSurfaceFormat) -> bool {
    mask & (1u16 << format.spec_code()) != 0
}

#[verifier::when_used_as_spec(spec_mask_allows)]
pub fn mask_allows(mask: u16, format: VideoSurfaceFormat) -> (b: bool)
    ensures
        b == spec_mask_allows(mask, format),
{
    mask & (1u16 << format.code()) != 0
}

/// The format that a chroma layout and a luma bit depth map to: the 4:2:0
/// and 4:4:4 layouts each have an 8-bit and a deeper format; every other
/// layout maps to `NV12`.
pub open spec fn spec_preferred_format(
    chroma_format: u32,
    bit_depth_luma_minus8: u8,
) -> VideoSurfaceFormat {
    if chroma_format == CHROMA_FORMAT_420 {
        if bit_depth_luma_minus8 > 0 {
            VideoSurfaceFormat::P016
        } else {
            VideoSurfaceFormat::NV12
        }
    } else if chroma_format == CHROMA_FORMAT_444 {
        if bit_depth_luma_minus8 > 0 {
            VideoSurfaceFormat::YUV444_16Bit
        } else {
            VideoSurfaceFormat::YUV444
        }
    } else {
        VideoSurfaceFormat::NV12
    }
}

#[verifier::when_used_as_spec(spec_preferred_format)]
pub fn preferred_format(chroma_format: u32, bit_depth_luma_minus8: u8) -> (f: VideoSurfaceFormat)
    ensures
        f == spec_preferred_format(chroma_format, bit_depth_luma_minus8),
{
    if chroma_format == CHROMA_FORMAT_420 {
        if bit_depth_luma_minus8 > 0 {
            VideoSurfaceFormat::P016
        } else {
            VideoSurfaceFormat::NV12
        }
    } else if chroma_format == CHROMA_FORMAT_444 {
        if bit_depth_luma_minus8 > 0 {
            VideoSurfaceFormat::YUV444_16Bit
        } else {
            VideoSurfaceFormat::YUV444
        }
    } else {
        VideoSurfaceFormat::NV12
    }
}

/// The first format in the fixed order `NV12`, `P016`, `YUV444`,
/// `YUV444_16Bit` that the mask allows.
pub open spec fn spec_fallback_format(mask: u16) -> Option<VideoSurfaceFormat> {
    if spec_mask_allows(mask, VideoSurfaceFormat::NV12) {
        Some(VideoSurfaceFormat::NV12)
    } else if spec_mask_allows(mask, VideoSurfaceFormat::P016) {
        Some(VideoSurfaceFormat::P016)
    } else if spec_mask_allows(mask, VideoSurfaceFormat::YUV444) {
        Some(VideoSurfaceFormat::YUV444)
    } else if spec_mask_allows(mask, VideoSurfaceFormat::YUV444_16Bit) {
        Some(VideoSurfaceFormat::YUV444_16Bit)
    } else {
        None
    }
}

/// The output format for a stream on a device: the preferred format where
/// the mask allows it, else the first allowed one in the fallback order.
pub open spec fn spec_select_output_format(
    chroma_format: u32,
    bit_depth_luma_minus8: u8,
    mask: u16,
) -> Option<VideoSurfaceFormat> {
    let preferred = spec_preferred_format(chroma_format, bit_depth_luma_minus8);
    if spec_mask_allows(mask, preferred) {
        Some(preferred)
    } else {
        spec_fallback_format(mask)
    }
}

/// Chooses the output surface format, or `None` where the device can
/// produce none of the four.
#[verifier::when_used_as_spec(spec_select_output_format)]
pub fn select_output_format(chroma_format: u32, bit_depth_luma_minus8: u8, mask: u16) -> (f: Option<
    VideoSurfaceFormat,
>)
    ensures
        f == spec_select_output_format(chroma_format, bit_depth_luma_minus8, mask),
{
    let preferred = preferred_format(chroma_format, bit_depth_luma_minus8);
    if mask_allows(mask, preferred) {
        Some(preferred)
    } else if mask_allows(mask, VideoSurfaceFormat::NV12) {
        Some(VideoSurfaceFormat::NV12)
    } else if mask_allows(mask, VideoSurfaceFormat::P016) {
        Some(VideoSurfaceFormat::P016)
    } else if mask_allows(mask, VideoSurfaceFormat::YUV444) {
        Some(VideoSurfaceFormat::YUV444)
    } else if mask_allows(mask, VideoSurfaceFormat::YUV444_16Bit) {
        Some(VideoSurfaceFormat::YUV444_16Bit)
    } else {
        None
    }
}

/// The selection rule, case by case. Whatever the stream and the mask:
/// the preferred format is chosen whenever the mask allows it; a chosen
/// format is always allowed; where the preferred format is not allowed,
/// no allowed format ranks before the chosen one; and nothing is chosen
/// exactly when the mask allows none of the four formats.
pub proof fn lemma_output_format_selection(chroma_format: u32, bit_depth_luma_minus8: u8, mask: u16)
    ensures
        ({
            let preferred = spec_preferred_format(chroma_format, bit_depth_luma_minus8);
            let chosen = spec_select_output_format(chroma_format, bit_depth_luma_minus8, mask);
            &&& spec_mask_allows(mask, preferred) ==> chosen == Some(preferred)
            &&& chosen matches Some(f) ==> spec_mask_allows(mask, f)
            &&& chosen matches Some(f) ==> !spec_mask_allows(mask, preferred) ==> forall|
                g: VideoSurfaceFormat,
            |
                g.spec_code() < f.spec_code() ==> !spec_mask_allows(mask, g)
            &&& chosen.is_none() <==> forall|g: VideoSurfaceFormat| !spec_mask_allows(mask, g)
        }),
{
    let chosen = spec_select_output_format(chroma_format, bit_depth_luma_minus8, mask);
    if chosen.is_none() {
        assert forall|g: VideoSurfaceFormat| !spec_mask_allows(mask, g) by {
            match g {
                VideoSurfaceFormat::NV12 => {},
                VideoSurfaceFormat::P016 => {},
                VideoSurfaceFormat::YUV444 => {},
                VideoSurfaceFormat::YUV444_16Bit => {},
            }
        }
    }
}

/// Each of the four pairs of chroma layout and bit depth has a format of
/// its own.
pub proof fn lemma_preferred_formats_distinct()
    ensures
        spec_preferred_format(CHROMA_FORMAT_420, 0) == VideoSurfaceFormat::NV12,
        forall|d: u8| d > 0 ==> spec_preferred_format(CHROMA_FORMAT_420, d) == VideoSurfaceFormat::P016,
        spec_preferred_format(CHROMA_FORMAT_444, 0) == VideoSurfaceFormat::YUV444,
        forall|d: u8|
            d > 0 ==> spec_preferred_format(CHROMA_FORMAT_444, d)
                == VideoSurfaceFormat::YUV444_16Bit,
{
}

} // verus!
