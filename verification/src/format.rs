//! Plain-value models of what the video parser and the device report.

use vstd::prelude::*;

verus! {

/// Chroma layout code: luma only.
pub const CHROMA_FORMAT_MONOCHROME: u32 = 0;

/// Chroma layout code: 4:2:0 subsampling.
pub const CHROMA_FORMAT_420: u32 = 1;

/// Chroma layout code: 4:2:2 subsampling.
pub const CHROMA_FORMAT_422: u32 = 2;

/// Chroma layout code: 4:4:4, no subsampling.
pub const CHROMA_FORMAT_444: u32 = 3;

/// A rectangle in picture coordinates, given by its four edges.
#[derive(Clone, Copy, Debug, PartialEq, Eq, Structural)]
pub struct DisplayArea {
    pub top: i32,
    pub left: i32,
    pub bottom: i32,
    pub right: i32,
}

impl DisplayArea {
    /// Horizontal extent, `right - left`.
    pub open spec fn spec_width(self) -> int {
        self.right - self.left
    }

    /// Vertical extent, `bottom - top`.
    pub open spec fn spec_height(self) -> int {
        self.bottom - self.top
    }

    /// A caller-supplied crop counts as given when both its right and its
    /// bottom edge are non-zero.
    pub open spec fn spec_is_set(self) -> bool {
        self.right != 0 && self.bottom != 0
    }

    pub fn width(self) -> (w: i64)
        ensures
            w == self.spec_width(),
    {
        self.right as i64 - self.left as i64
    }

    pub fn height(self) -> (h: i64)
        ensures
            h == self.spec_height(),
    {
        self.bottom as i64 - self.top as i64
    }

    #[verifier::when_used_as_spec(spec_is_set)]
    pub fn is_set(self) -> (b: bool)
        ensures
            b == self.spec_is_set(),
    {
        self.right != 0 && self.bottom != 0
    }

    /// The rectangle with all four edges at zero, which stands for "no crop".
    pub open spec fn zero() -> DisplayArea {
        DisplayArea { top: 0, left: 0, bottom: 0, right: 0 }
    }
}

impl Default for DisplayArea {
    fn default() -> (d: DisplayArea)
        ensures
            d == DisplayArea::zero(),
    {
        DisplayArea { top: 0, left: 0, bottom: 0, right: 0 }
    }
}

/// A caller-requested output size.
#[derive(Clone, Copy, Debug, PartialEq, Eq, Structural)]
pub struct Size {
    pub width: i32,
    pub height: i32,
}

impl Size {
    /// A resize counts as given when both dimensions are non-zero.
    pub open spec fn spec_is_set(self) -> bool {
        self.width != 0 && self.height != 0
    }

    #[verifier::when_used_as_spec(spec_is_set)]
    pub fn is_set(self) -> (b: bool)
        ensures
            b == self.spec_is_set(),
    {
        self.width != 0 && self.height != 0
    }

    /// The size with both dimensions at zero, which stands for "no resize".
    pub open spec fn zero() -> Size {
        Size { width: 0, height: 0 }
    }
}

impl Default for Size {
    fn default() -> (s: Size)
        ensures
            s == Size::zero(),
    {
        Size { width: 0, height: 0 }
    }
}

/// The coded video format as the parser reports it at a sequence boundary.
#[derive(Clone, Copy, Debug, PartialEq, Eq, Structural)]
pub struct VideoFormat {
    /// Codec code of the stream.
    pub codec: u32,
    /// Chroma layout code, one of the `CHROMA_FORMAT_*` values.
    pub chroma_format: u32,
    /// Luma bit depth above eight.
    pub bit_depth_luma_minus8: u8,
    /// Chroma bit depth above eight.
    pub bit_depth_chroma_minus8: u8,
    /// Whether the sequence is progressive.
    pub progressive_sequence: bool,
    /// Coded width in pixels.
    pub coded_width: u32,
    /// Coded height in pixels.
    pub coded_height: u32,
    /// The part of the coded picture that is meant to be shown.
    pub display_area: DisplayArea,
    /// Smallest number of decode surfaces the stream needs.
    pub min_num_decode_surfaces: u8,
}

/// What the device answers to a capability query.
#[derive(Clone, Copy, Debug, PartialEq, Eq, Structural)]
pub struct DecodeCaps {
    /// Whether the queried codec, chroma layout and bit depth can be decoded.
    pub is_supported: bool,
    /// Largest coded width the device decodes.
    pub max_width: u32,
    /// Largest coded height the device decodes.
    pub max_height: u32,
    /// Largest number of 16x16 macroblocks per picture.
    pub max_mb_count: u32,
    /// One bit per output surface format the device can produce.
    pub output_format_mask: u16,
}

/// Number of 16x16 macroblocks of a coded picture.
pub open spec fn spec_macroblock_count(coded_width: u32, coded_height: u32) -> int {
    (coded_width / 16) * (coded_height / 16)
}

pub fn macroblock_count(coded_width: u32, coded_height: u32) -> (n: u64)
    ensures
        n == spec_macroblock_count(coded_width, coded_height),
{
    let w: u64 = (coded_width / 16) as u64;
    let h: u64 = (coded_height / 16) as u64;
    assert(w * h <= 0x1000_0000 * 0x1000_0000) by (nonlinear_arith)
        requires
            w <= 0x1000_0000,
            h <= 0x1000_0000,
    ;
    w * h
}

/// Number of chroma planes that follow the luma plane.
pub open spec fn spec_chroma_plane_count(chroma_format: u32) -> u32 {
    if chroma_format == CHROMA_FORMAT_420 {
        1
    } else if chroma_format == CHROMA_FORMAT_444 {
        2
    } else {
        0
    }
}

/// Number of chroma planes that follow the luma plane: one interleaved
/// plane for 4:2:0, two full planes for 4:4:4, none otherwise.
#[verifier::when_used_as_spec(spec_chroma_plane_count)]
pub fn get_chroma_plane_count(chroma_format: u32) -> (n: u32)
    ensures
        n == spec_chroma_plane_count(chroma_format),
{
    if chroma_format == CHROMA_FORMAT_420 {
        1
    } else if chroma_format == CHROMA_FORMAT_444 {
        2
    } else {
        0
    }
}

/// Height of one chroma plane for a luma plane of `luma_height` rows:
/// nothing for monochrome, all rows for 4:2:2 and 4:4:4, and half of them,
/// rounded down, for 4:2:0 and for any unknown layout.
pub open spec fn spec_chroma_height(luma_height: int, chroma_format: u32) -> int {
    if chroma_format == CHROMA_FORMAT_MONOCHROME {
        0
    } else if chroma_format == CHROMA_FORMAT_422 || chroma_format == CHROMA_FORMAT_444 {
        luma_height
    } else {
        luma_height / 2
    }
}

pub fn chroma_height(luma_height: i64, chroma_format: u32) -> (h: i64)
    ensures
        h == spec_chroma_height(luma_height as int, chroma_format),
{
    if chroma_format == CHROMA_FORMAT_MONOCHROME {
        0
    } else if chroma_format == CHROMA_FORMAT_422 || chroma_format == CHROMA_FORMAT_444 {
        luma_height
    } else if luma_height >= 0 || luma_height % 2 == 0 {
        luma_height / 2
    } else {
        (luma_height - 1) / 2
    }
}

} // verus!
