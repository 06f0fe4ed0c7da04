//! The sequence negotiator: what to do when the parser reports a coded
//! video format.
//!
//! A negotiation is a short exchange with the device. The negotiator looks
//! at the new format, the device's capabilities and its own state, and
//! answers with a [`SequenceStep`]: either the number of decode surfaces the
//! parser shall use, or one thing to ask of the device. The caller performs
//! that request and reports its status with [`Negotiator::complete_step`],
//! which answers with the next step.

use vstd::prelude::*;
use crate::codec::CuVideoCodecType;
use crate::error::{NVCodecError, CUDA_SUCCESS};
use crate::format::{
    chroma_height, get_chroma_plane_count, macroblock_count, spec_chroma_height,
    spec_chroma_plane_count, spec_macroblock_count, DecodeCaps, DisplayArea, Size, VideoFormat,
};
use crate::surface::{
    select_output_format, spec_select_output_format, VideoSurfaceFormat,
};

verus! {

/// Decode surfaces kept beyond the stream's minimum, to absorb the latency
/// of the display pipeline.
pub const SURFACE_HEADROOM: i32 = 4;

/// Number of output surfaces a decoder is created with.
pub const NUM_OUTPUT_SURFACES: u32 = 3;

/// Creation flag that asks for the dedicated video engine.
pub const CREATE_PREFER_CUVID: u32 = 4;

/// How the device treats interlaced content.
#[derive(Clone, Copy, Debug, PartialEq, Eq, Structural)]
pub enum DeinterlaceMode {
    /// Weave both fields, for progressive sequences.
    Weave,
    /// Adaptive deinterlacing, for everything else.
    Adaptive,
}

impl DeinterlaceMode {
    /// The device's code of the mode.
    pub open spec fn spec_code(self) -> u32 {
        match self {
            DeinterlaceMode::Weave => 0,
            DeinterlaceMode::Adaptive => 2,
        }
    }

    #[verifier::when_used_as_spec(spec_code)]
    pub fn code(self) -> (c: u32)
        ensures
            c == self.spec_code(),
    {
        match self {
            DeinterlaceMode::Weave => 0,
            DeinterlaceMode::Adaptive => 2,
        }
    }
}

/// The question put to the device before a format is accepted.
#[derive(Clone, Copy, Debug, PartialEq, Eq, Structural)]
pub struct CapsQuery {
    pub codec: u32,
    pub chroma_format: u32,
    pub bit_depth_minus8: u8,
}

/// The capability query for a format: its codec, its chroma layout and its
/// chroma bit depth.
pub fn capability_query(fmt: &VideoFormat) -> (q: CapsQuery)
    ensures
        q == (CapsQuery {
            codec: fmt.codec,
            chroma_format: fmt.chroma_format,
            bit_depth_minus8: fmt.bit_depth_chroma_minus8,
        }),
{
    CapsQuery {
        codec: fmt.codec,
        chroma_format: fmt.chroma_format,
        bit_depth_minus8: fmt.bit_depth_chroma_minus8,
    }
}

/// Why a device cannot decode a stream.
#[derive(Clone, Copy, Debug, PartialEq, Eq, Structural)]
pub enum Rejection {
    /// The device does not decode this codec, chroma layout and bit depth.
    Codec,
    /// The coded picture is wider or higher than the device decodes.
    Resolution,
    /// The coded picture has more macroblocks than the device decodes.
    MacroblockCount,
    /// The device produces none of the four output formats.
    OutputFormat,
}

/// The first reason, in the order codec, resolution, macroblock count, for
/// which the capabilities rule a format out.
pub open spec fn spec_check_capabilities(fmt: VideoFormat, caps: DecodeCaps) -> Option<Rejection> {
    if !caps.is_supported {
        Some(Rejection::Codec)
    } else if caps.max_width < fmt.coded_width || caps.max_height < fmt.coded_height {
        Some(Rejection::Resolution)
    } else if caps.max_mb_count < spec_macroblock_count(fmt.coded_width, fmt.coded_height) {
        Some(Rejection::MacroblockCount)
    } else {
        None
    }
}

/// Holds a format against the device's capabilities.
#[verifier::when_used_as_spec(spec_check_capabilities)]
pub fn check_capabilities(fmt: VideoFormat, caps: DecodeCaps) -> (r: Option<Rejection>)
    ensures
        r == spec_check_capabilities(fmt, caps),
{
    if !caps.is_supported {
        Some(Rejection::Codec)
    } else if caps.max_width < fmt.coded_width || caps.max_height < fmt.coded_height {
        Some(Rejection::Resolution)
    } else if (caps.max_mb_count as u64) < macroblock_count(fmt.coded_width, fmt.coded_height) {
        Some(Rejection::MacroblockCount)
    } else {
        None
    }
}

/// Text of the message for a codec the device does not decode.
pub uninterp spec fn unsupported_codec_text(codec: u32) -> Seq<char>;

/// Text of the message for a picture larger than the device's limits.
pub uninterp spec fn unsupported_resolution_text(
    width: u32,
    height: u32,
    max_width: u32,
    max_height: u32,
) -> Seq<char>;

/// Text of the message for a picture with too many macroblocks.
pub uninterp spec fn unsupported_macroblocks_text(count: u64, max_count: u32) -> Seq<char>;

/// Text of the message for a device that offers no usable output format.
pub uninterp spec fn unsupported_output_text(mask: u16) -> Seq<char>;

/// Renders the message for an unsupported codec with `format!`; the text is
/// a function of the codec code alone.
#[verifier::external_body]
fn unsupported_codec_message(codec: u32) -> (s: String)
    ensures
        s@ == unsupported_codec_text(codec),
{
    format!("Codec {} not supported for this GPU", codec)
}

/// Renders the message for an unsupported resolution with `format!`; the
/// text is a function of the four numbers alone.
#[verifier::external_body]
fn unsupported_resolution_message(width: u32, height: u32, max_width: u32, max_height: u32) -> (s:
    String)
    ensures
        s@ == unsupported_resolution_text(width, height, max_width, max_height),
{
    format!(
        "Resolution {}x{} is greater than the maximum resolution {}x{} of this GPU",
        width, height, max_width, max_height
    )
}

/// Renders the message for an unsupported macroblock count with `format!`;
/// the text is a function of the two numbers alone.
#[verifier::external_body]
fn unsupported_macroblocks_message(count: u64, max_count: u32) -> (s: String)
    ensures
        s@ == unsupported_macroblocks_text(count, max_count),
{
    format!(
        "Macroblock count {} is greater than the maximum macroblock count {} of this GPU",
        count, max_count
    )
}

/// Renders the message for a device without a usable output format with
/// `format!`; the text is a function of the mask alone.
#[verifier::external_body]
fn unsupported_output_message(mask: u16) -> (s: String)
    ensures
        s@ == unsupported_output_text(mask),
{
    format!("No supported output format found. Supported formats: {}", mask)
}

/// The diagnostic text that goes with a rejection.
pub open spec fn spec_rejection_text(
    rejection: Rejection,
    fmt: VideoFormat,
    caps: DecodeCaps,
) -> Seq<char> {
    match rejection {
        Rejection::Codec => unsupported_codec_text(fmt.codec),
        Rejection::Resolution => unsupported_resolution_text(
            fmt.coded_width,
            fmt.coded_height,
            caps.max_width,
            caps.max_height,
        ),
        Rejection::MacroblockCount => unsupported_macroblocks_text(
            spec_macroblock_count(fmt.coded_width, fmt.coded_height) as u64,
            caps.max_mb_count,
        ),
        Rejection::OutputFormat => unsupported_output_text(caps.output_format_mask),
    }
}

/// Whether `error` is the `NotSupported` error that reports `rejection`.
pub open spec fn reports_rejection(
    error: NVCodecError,
    rejection: Rejection,
    fmt: VideoFormat,
    caps: DecodeCaps,
) -> bool {
    error matches NVCodecError::NotSupported(text) && text@ == spec_rejection_text(
        rejection,
        fmt,
        caps,
    )
}

/// The `NotSupported` error that reports a rejection, with its diagnostic
/// message.
pub fn rejection_error(rejection: Rejection, fmt: VideoFormat, caps: DecodeCaps) -> (e:
    NVCodecError)
    ensures
        reports_rejection(e, rejection, fmt, caps),
{
    let text = match rejection {
        Rejection::Codec => unsupported_codec_message(fmt.codec),
        Rejection::Resolution => unsupported_resolution_message(
            fmt.coded_width,
            fmt.coded_height,
            caps.max_width,
            caps.max_height,
        ),
        Rejection::MacroblockCount => unsupported_macroblocks_message(
            macroblock_count(fmt.coded_width, fmt.coded_height),
            caps.max_mb_count,
        ),
        Rejection::OutputFormat => unsupported_output_message(caps.output_format_mask),
    };
    NVCodecError::NotSupported(text)
}

/// What the device is asked when an existing decoder takes a new coded size
/// in place.
#[derive(Clone, Copy, Debug, PartialEq, Eq, Structural)]
pub struct ReconfigureRequest {
    /// New coded width.
    pub width: u32,
    /// New coded height.
    pub height: u32,
    /// Output width, the one in force before the request.
    pub target_width: i64,
    /// Output height, the one in force before the request.
    pub target_height: i64,
    /// Number of decode surfaces.
    pub num_decode_surfaces: i32,
}

/// What the device is asked when a decoder is created.
#[derive(Clone, Copy, Debug, PartialEq, Eq, Structural)]
pub struct DecoderCreateInfo {
    /// Whether only keyframes are decoded.
    pub intra_decode_only: bool,
    pub codec: u32,
    pub chroma_format: u32,
    pub output_format: VideoSurfaceFormat,
    /// Chroma bit depth above eight.
    pub bit_depth_minus8: u8,
    pub deinterlace_mode: DeinterlaceMode,
    pub num_output_surfaces: u32,
    pub creation_flags: u32,
    pub num_decode_surfaces: i32,
    /// Coded width.
    pub width: u32,
    /// Coded height.
    pub height: u32,
    /// Largest coded width seen so far.
    pub max_width: u32,
    /// Largest coded height seen so far.
    pub max_height: u32,
    /// The part of the picture to output; all zero for the whole picture.
    pub display_area: DisplayArea,
    pub target_width: i64,
    pub target_height: i64,
}

/// How an existing decoder can take a new format.
#[derive(Clone, Copy, Debug, PartialEq, Eq, Structural)]
pub enum ReconfigureDecision {
    /// Not in place: the decoder has to be destroyed and created anew.
    Recreate,
    /// The coded size outgrew the decoder, but the codec lets the driver
    /// handle that: accepted as it is, nothing changes.
    Tolerated,
    /// The coded size is unchanged: the output geometry is recomputed where
    /// the display rectangle moved, and the device is not asked.
    Recomputed,
    /// The coded size changed within the decoder's limits: the device is
    /// asked to reconfigure.
    Request(ReconfigureRequest),
}

/// One move of a negotiation.
#[derive(Clone, Copy, Debug, PartialEq, Eq, Structural)]
pub enum SequenceStep {
    /// The negotiation is over; the parser shall use this many decode
    /// surfaces.
    Done { surfaces: i32 },
    /// Ask the device to reconfigure the decoder.
    Reconfigure(ReconfigureRequest),
    /// Ask the device to destroy the decoder.
    Destroy,
    /// Ask the device to create a decoder.
    Create(DecoderCreateInfo),
}

/// How a move of a negotiation ends.
#[derive(Clone, Copy, Debug, PartialEq, Eq, Structural)]
pub enum Verdict {
    /// The negotiation goes on with this step.
    Step(SequenceStep),
    /// The device answered with this failure status.
    Status(u32),
    /// The stream cannot be decoded, for this reason.
    Rejected(Rejection),
}

/// Whether `result` is what the verdict calls for: the step itself, the
/// error that carries the status, or the `NotSupported` error that reports
/// the rejection.
pub open spec fn meets_verdict(
    result: Result<SequenceStep, NVCodecError>,
    verdict: Verdict,
    fmt: VideoFormat,
    caps: DecodeCaps,
) -> bool {
    match verdict {
        Verdict::Step(step) => result == Ok::<SequenceStep, NVCodecError>(step),
        Verdict::Status(status) => result == Err::<SequenceStep, NVCodecError>(
            NVCodecError::CuError(status),
        ),
        Verdict::Rejected(rejection) => result matches Err(error) && reports_rejection(
            error,
            rejection,
            fmt,
            caps,
        ),
    }
}

/// Bytes per sample of an output surface: two for more than eight bits of
/// luma, else one.
pub open spec fn spec_bytes_per_sample(bit_depth_luma_minus8: u8) -> u32 {
    if bit_depth_luma_minus8 > 0 {
        2
    } else {
        1
    }
}

/// Number of decode surfaces for a format: its minimum plus the headroom.
pub open spec fn spec_surface_count(fmt: VideoFormat) -> i32 {
    (fmt.min_num_decode_surfaces + SURFACE_HEADROOM) as i32
}

#[verifier::when_used_as_spec(spec_surface_count)]
pub fn surface_count(fmt: VideoFormat) -> (n: i32)
    ensures
        n == spec_surface_count(fmt),
        n == fmt.min_num_decode_surfaces + 4,
{
    fmt.min_num_decode_surfaces as i32 + SURFACE_HEADROOM
}

/// The state of the sequence negotiator: what the caller asked for, and
/// what the last negotiations settled.
#[derive(Clone, Copy, Debug, PartialEq, Eq, Structural)]
pub struct Negotiator {
    /// Caller-supplied crop; all zero for none.
    pub crop: DisplayArea,
    /// Caller-supplied output size; all zero for none.
    pub target_size: Size,
    /// Whether only keyframes are decoded.
    pub keyframe_only: bool,
    /// Whether a decoder instance exists.
    pub decoder_live: bool,
    /// The format in force, once one has been negotiated.
    pub video_fmt: Option<VideoFormat>,
    /// The chosen output surface format.
    pub surface_fmt: VideoSurfaceFormat,
    /// Bytes per sample of the output.
    pub bpp: u32,
    /// Number of chroma planes of the output.
    pub num_chroma_planes: u32,
    /// Output width in pixels.
    pub width: i64,
    /// Output height of the luma plane.
    pub luma_height: i64,
    /// Output height of one chroma plane.
    pub chroma_height: i64,
    /// Largest coded width seen by a decoder creation.
    pub max_width: u32,
    /// Largest coded height seen by a decoder creation.
    pub max_height: u32,
    /// The rectangle the decoder was created to output; all zero for the
    /// whole picture.
    pub display_area: DisplayArea,
}

impl Negotiator {
    /// The state before any negotiation, for the given wishes of the
    /// caller.
    pub open spec fn spec_new(
        crop: Option<DisplayArea>,
        target_size: Option<Size>,
        keyframe_only: bool,
    ) -> Negotiator {
        Negotiator {
            crop: match crop {
                Some(area) => area,
                None => DisplayArea::zero(),
            },
            target_size: match target_size {
                Some(size) => size,
                None => Size::zero(),
            },
            keyframe_only,
            decoder_live: false,
            video_fmt: None,
            surface_fmt: VideoSurfaceFormat::NV12,
            bpp: 1,
            num_chroma_planes: 0,
            width: 0,
            luma_height: 0,
            chroma_height: 0,
            max_width: 0,
            max_height: 0,
            display_area: DisplayArea::zero(),
        }
    }

    /// A negotiator that has not seen a format yet: no decoder, no format,
    /// empty geometry.
    #[verifier::when_used_as_spec(spec_new)]
    pub fn new(crop: Option<DisplayArea>, target_size: Option<Size>, keyframe_only: bool) -> (n:
        Negotiator)
        ensures
            n == Negotiator::spec_new(crop, target_size, keyframe_only),
    {
        Negotiator {
            crop: match crop {
                Some(area) => area,
                None => DisplayArea::default(),
            },
            target_size: match target_size {
                Some(size) => size,
                None => Size::default(),
            },
            keyframe_only,
            decoder_live: false,
            video_fmt: None,
            surface_fmt: VideoSurfaceFormat::NV12,
            bpp: 1,
            num_chroma_planes: 0,
            width: 0,
            luma_height: 0,
            chroma_height: 0,
            max_width: 0,
            max_height: 0,
            display_area: DisplayArea::default(),
        }
    }

    /// Whether the derived fields agree with the format in force: bytes per
    /// sample and plane count follow the format, and the chroma height
    /// follows the luma height.
    pub open spec fn consistent(self) -> bool {
        self.video_fmt matches Some(fmt) ==> {
            &&& self.bpp == spec_bytes_per_sample(fmt.bit_depth_luma_minus8)
            &&& self.num_chroma_planes == spec_chroma_plane_count(fmt.chroma_format)
            &&& self.chroma_height == spec_chroma_height(
                self.luma_height as int,
                fmt.chroma_format,
            )
        }
    }

    /// The state with the output geometry taken from a format's display
    /// rectangle.
    pub open spec fn spec_with_display_size(self, fmt: VideoFormat) -> Negotiator {
        Negotiator {
            width: fmt.display_area.spec_width() as i64,
            luma_height: fmt.display_area.spec_height() as i64,
            chroma_height: spec_chroma_height(
                fmt.display_area.spec_height(),
                fmt.chroma_format,
            ) as i64,
            ..self
        }
    }

    /// How the decoder of format `old_fmt` can take the format `fmt`:
    /// - a change of bit depth or chroma layout needs a new decoder;
    /// - so does a coded size beyond the largest seen, except for VP9,
    ///   where it is accepted as it is;
    /// - an unchanged coded size needs nothing from the device;
    /// - every other coded size is requested from the device, with the
    ///   output size that is in force.
    pub open spec fn spec_reconfigure_decision(
        self,
        old_fmt: VideoFormat,
        fmt: VideoFormat,
    ) -> ReconfigureDecision {
        if old_fmt.bit_depth_chroma_minus8 != fmt.bit_depth_chroma_minus8
            || old_fmt.bit_depth_luma_minus8 != fmt.bit_depth_luma_minus8
            || old_fmt.chroma_format != fmt.chroma_format {
            ReconfigureDecision::Recreate
        } else if fmt.coded_width > self.max_width || fmt.coded_height > self.max_height {
            if old_fmt.codec != CuVideoCodecType::VP9.spec_code() {
                ReconfigureDecision::Recreate
            } else {
                ReconfigureDecision::Tolerated
            }
        } else if old_fmt.coded_width == fmt.coded_width && old_fmt.coded_height
            == fmt.coded_height {
            ReconfigureDecision::Recomputed
        } else {
            ReconfigureDecision::Request(
                ReconfigureRequest {
                    width: fmt.coded_width,
                    height: fmt.coded_height,
                    target_width: self.width,
                    target_height: self.luma_height,
                    num_decode_surfaces: spec_surface_count(fmt),
                },
            )
        }
    }

    /// The state after the decision on `fmt`: the output geometry follows
    /// the new display rectangle where the coded size changed in place, or
    /// where it stayed and the rectangle moved; otherwise nothing changes.
    pub open spec fn spec_after_reconfigure(
        self,
        old_fmt: VideoFormat,
        fmt: VideoFormat,
    ) -> Negotiator {
        match self.spec_reconfigure_decision(old_fmt, fmt) {
            ReconfigureDecision::Recreate => self,
            ReconfigureDecision::Tolerated => self,
            ReconfigureDecision::Recomputed => if old_fmt.display_area != fmt.display_area {
                self.spec_with_display_size(fmt)
            } else {
                self
            },
            ReconfigureDecision::Request(_) => self.spec_with_display_size(fmt),
        }
    }

    fn set_display_size(&mut self, fmt: &VideoFormat)
        ensures
            *final(self) == old(self).spec_with_display_size(*fmt),
    {
        self.width = fmt.display_area.width();
        self.luma_height = fmt.display_area.height();
        self.chroma_height = chroma_height(self.luma_height, fmt.chroma_format);
    }

    /// Tries to fit the new format `fmt` to the decoder of the format in
    /// force, and adjusts the output geometry. Fails with
    /// `ReconfigureFailed` exactly when the decoder has to be recreated,
    /// and then changes nothing. Without a format in force there is nothing
    /// to reconfigure, and the answer is `ReconfigureFailed` too.
    pub fn reconfigure_decoder(&mut self, fmt: &VideoFormat) -> (r: Result<
        ReconfigureDecision,
        NVCodecError,
    >)
        ensures
            match old(self).video_fmt {
                Some(old_fmt) => {
                    let decision = old(self).spec_reconfigure_decision(old_fmt, *fmt);
                    &&& *final(self) == old(self).spec_after_reconfigure(old_fmt, *fmt)
                    &&& decision == ReconfigureDecision::Recreate ==> r == Err::<
                        ReconfigureDecision,
                        NVCodecError,
                    >(NVCodecError::ReconfigureFailed)
                    &&& decision != ReconfigureDecision::Recreate ==> r == Ok::<
                        ReconfigureDecision,
                        NVCodecError,
                    >(decision)
                },
                None => {
                    &&& *final(self) == *old(self)
                    &&& r == Err::<ReconfigureDecision, NVCodecError>(
                        NVCodecError::ReconfigureFailed,
                    )
                },
            },
    {
        let old_fmt = match self.video_fmt {
            Some(old_fmt) => old_fmt,
            None => {
                return Err(NVCodecError::ReconfigureFailed);
            },
        };
        if old_fmt.bit_depth_chroma_minus8 != fmt.bit_depth_chroma_minus8
            || old_fmt.bit_depth_luma_minus8 != fmt.bit_depth_luma_minus8 {
            return Err(NVCodecError::ReconfigureFailed);
        }
        if old_fmt.chroma_format != fmt.chroma_format {
            return Err(NVCodecError::ReconfigureFailed);
        }
        let surfaces = surface_count(*fmt);
        if fmt.coded_width > self.max_width || fmt.coded_height > self.max_height {
            if old_fmt.codec != CuVideoCodecType::VP9.code() {
                return Err(NVCodecError::ReconfigureFailed);
            }
            return Ok(ReconfigureDecision::Tolerated);
        }
        let size_changed = old_fmt.coded_width != fmt.coded_width || old_fmt.coded_height
            != fmt.coded_height;
        if !size_changed {
            let area_changed = old_fmt.display_area.top != fmt.display_area.top
                || old_fmt.display_area.left != fmt.display_area.left
                || old_fmt.display_area.bottom != fmt.display_area.bottom
                || old_fmt.display_area.right != fmt.display_area.right;
            if area_changed {
                self.set_display_size(fmt);
            }
            return Ok(ReconfigureDecision::Recomputed);
        }
        let request = ReconfigureRequest {
            width: fmt.coded_width,
            height: fmt.coded_height,
            target_width: self.width,
            target_height: self.luma_height,
            num_decode_surfaces: surfaces,
        };
        self.set_display_size(fmt);
        Ok(ReconfigureDecision::Request(request))
    }
}

/// The larger of two sizes.
pub open spec fn spec_larger(a: u32, b: u32) -> u32 {
    if a > b {
        a
    } else {
        b
    }
}

impl Negotiator {
    /// The rectangle a new decoder is told to output.
    /// - Neither crop nor resize: none, the whole display rectangle is
    ///   shown as it is.
    /// - A crop: the crop, whether or not a resize is given too.
    /// - A resize alone: the stream's display rectangle.
    pub open spec fn spec_output_area(self, fmt: VideoFormat) -> DisplayArea {
        if self.crop.spec_is_set() {
            self.crop
        } else if self.target_size.spec_is_set() {
            fmt.display_area
        } else {
            DisplayArea::zero()
        }
    }

    /// Output width of a new decoder: the crop's where one is given, else
    /// the resize's where one is given, else the display rectangle's.
    pub open spec fn spec_output_width(self, fmt: VideoFormat) -> int {
        if self.crop.spec_is_set() {
            self.crop.spec_width()
        } else if self.target_size.spec_is_set() {
            self.target_size.width as int
        } else {
            fmt.display_area.spec_width()
        }
    }

    /// Output height of a new decoder, chosen as the width is.
    pub open spec fn spec_output_height(self, fmt: VideoFormat) -> int {
        if self.crop.spec_is_set() {
            self.crop.spec_height()
        } else if self.target_size.spec_is_set() {
            self.target_size.height as int
        } else {
            fmt.display_area.spec_height()
        }
    }

    /// What the device is asked to create for `fmt` with output format
    /// `output_format`.
    pub open spec fn spec_create_info(
        self,
        fmt: VideoFormat,
        output_format: VideoSurfaceFormat,
    ) -> DecoderCreateInfo {
        DecoderCreateInfo {
            intra_decode_only: self.keyframe_only,
            codec: fmt.codec,
            chroma_format: fmt.chroma_format,
            output_format,
            bit_depth_minus8: fmt.bit_depth_chroma_minus8,
            deinterlace_mode: if fmt.progressive_sequence {
                DeinterlaceMode::Weave
            } else {
                DeinterlaceMode::Adaptive
            },
            num_output_surfaces: NUM_OUTPUT_SURFACES,
            creation_flags: CREATE_PREFER_CUVID,
            num_decode_surfaces: spec_surface_count(fmt),
            width: fmt.coded_width,
            height: fmt.coded_height,
            max_width: spec_larger(self.max_width, fmt.coded_width),
            max_height: spec_larger(self.max_height, fmt.coded_height),
            display_area: self.spec_output_area(fmt),
            target_width: self.spec_output_width(fmt) as i64,
            target_height: self.spec_output_height(fmt) as i64,
        }
    }

    /// The state once a creation has been planned for `fmt` with output
    /// format `output_format`: the format is in force, the running maxima
    /// cover its coded size, and every derived field is recomputed.
    pub open spec fn spec_after_plan(
        self,
        fmt: VideoFormat,
        output_format: VideoSurfaceFormat,
    ) -> Negotiator {
        Negotiator {
            video_fmt: Some(fmt),
            surface_fmt: output_format,
            bpp: spec_bytes_per_sample(fmt.bit_depth_luma_minus8),
            num_chroma_planes: spec_chroma_plane_count(fmt.chroma_format),
            width: self.spec_output_width(fmt) as i64,
            luma_height: self.spec_output_height(fmt) as i64,
            chroma_height: spec_chroma_height(
                self.spec_output_height(fmt),
                fmt.chroma_format,
            ) as i64,
            max_width: spec_larger(self.max_width, fmt.coded_width),
            max_height: spec_larger(self.max_height, fmt.coded_height),
            display_area: self.spec_output_area(fmt),
            ..self
        }
    }

    /// Plans the creation of a decoder for `fmt`: chooses the output
    /// format, and with it fixes the number of surfaces, the running maxima
    /// and the output geometry. Where the device offers none of the four
    /// output formats, nothing is planned and nothing changes.
    pub fn plan_create(&mut self, fmt: &VideoFormat, caps: &DecodeCaps) -> (info: Option<
        DecoderCreateInfo,
    >)
        ensures
            match spec_select_output_format(
                fmt.chroma_format,
                fmt.bit_depth_luma_minus8,
                caps.output_format_mask,
            ) {
                Some(output_format) => {
                    &&& info == Some(old(self).spec_create_info(*fmt, output_format))
                    &&& *final(self) == old(self).spec_after_plan(*fmt, output_format)
                },
                None => info.is_none() && *final(self) == *old(self),
            },
    {
        let output_format = match select_output_format(
            fmt.chroma_format,
            fmt.bit_depth_luma_minus8,
            caps.output_format_mask,
        ) {
            Some(output_format) => output_format,
            None => {
                return None;
            },
        };
        let ghost before = *self;
        self.surface_fmt = output_format;
        self.video_fmt = Some(*fmt);
        if fmt.coded_width > self.max_width {
            self.max_width = fmt.coded_width;
        }
        if fmt.coded_height > self.max_height {
            self.max_height = fmt.coded_height;
        }
        let mut area = DisplayArea::default();
        if !self.crop.is_set() && !self.target_size.is_set() {
            self.width = fmt.display_area.width();
            self.luma_height = fmt.display_area.height();
        } else {
            if self.target_size.is_set() {
                area = fmt.display_area;
                self.width = self.target_size.width as i64;
                self.luma_height = self.target_size.height as i64;
            }
            if self.crop.is_set() {
                area = self.crop;
                self.width = self.crop.width();
                self.luma_height = self.crop.height();
            }
        }
        self.bpp = if fmt.bit_depth_luma_minus8 > 0 {
            2
        } else {
            1
        };
        self.chroma_height = chroma_height(self.luma_height, fmt.chroma_format);
        self.num_chroma_planes = get_chroma_plane_count(fmt.chroma_format);
        self.display_area = area;
        Some(
            DecoderCreateInfo {
                intra_decode_only: self.keyframe_only,
                codec: fmt.codec,
                chroma_format: fmt.chroma_format,
                output_format,
                bit_depth_minus8: fmt.bit_depth_chroma_minus8,
                deinterlace_mode: if fmt.progressive_sequence {
                    DeinterlaceMode::Weave
                } else {
                    DeinterlaceMode::Adaptive
                },
                num_output_surfaces: NUM_OUTPUT_SURFACES,
                creation_flags: CREATE_PREFER_CUVID,
                num_decode_surfaces: surface_count(*fmt),
                width: fmt.coded_width,
                height: fmt.coded_height,
                max_width: self.max_width,
                max_height: self.max_height,
                display_area: area,
                target_width: self.width,
                target_height: self.luma_height,
            },
        )
    }

    /// The step that opens the creation of a decoder, or the rejection
    /// where the device offers no output format.
    pub open spec fn spec_create_verdict(self, fmt: VideoFormat, caps: DecodeCaps) -> Verdict {
        match spec_select_output_format(
            fmt.chroma_format,
            fmt.bit_depth_luma_minus8,
            caps.output_format_mask,
        ) {
            Some(output_format) => Verdict::Step(
                SequenceStep::Create(self.spec_create_info(fmt, output_format)),
            ),
            None => Verdict::Rejected(Rejection::OutputFormat),
        }
    }

    /// The state after the creation of a decoder has been opened.
    pub open spec fn spec_after_create_verdict(
        self,
        fmt: VideoFormat,
        caps: DecodeCaps,
    ) -> Negotiator {
        match spec_select_output_format(
            fmt.chroma_format,
            fmt.bit_depth_luma_minus8,
            caps.output_format_mask,
        ) {
            Some(output_format) => self.spec_after_plan(fmt, output_format),
            None => self,
        }
    }

    fn create_step(&mut self, fmt: &VideoFormat, caps: &DecodeCaps) -> (r: Result<
        SequenceStep,
        NVCodecError,
    >)
        ensures
            meets_verdict(r, old(self).spec_create_verdict(*fmt, *caps), *fmt, *caps),
            *final(self) == old(self).spec_after_create_verdict(*fmt, *caps),
    {
        match self.plan_create(fmt, caps) {
            Some(info) => Ok(SequenceStep::Create(info)),
            None => Err(rejection_error(Rejection::OutputFormat, *fmt, *caps)),
        }
    }

    /// How a negotiation of `fmt` opens.
    /// - A format the capabilities rule out is rejected.
    /// - Without a format in force, a decoder is to be created.
    /// - With one, the decoder is reconfigured where that is possible:
    ///   the negotiation is over at once where the device need not be
    ///   asked, else the device is asked; and where it is not possible, the
    ///   decoder is to be destroyed first.
    pub open spec fn spec_begin_sequence(self, fmt: VideoFormat, caps: DecodeCaps) -> Verdict {
        match spec_check_capabilities(fmt, caps) {
            Some(rejection) => Verdict::Rejected(rejection),
            None => match self.video_fmt {
                Some(old_fmt) => match self.spec_reconfigure_decision(old_fmt, fmt) {
                    ReconfigureDecision::Recreate => Verdict::Step(SequenceStep::Destroy),
                    ReconfigureDecision::Tolerated => Verdict::Step(
                        SequenceStep::Done { surfaces: spec_surface_count(fmt) },
                    ),
                    ReconfigureDecision::Recomputed => Verdict::Step(
                        SequenceStep::Done { surfaces: spec_surface_count(fmt) },
                    ),
                    ReconfigureDecision::Request(request) => Verdict::Step(
                        SequenceStep::Reconfigure(request),
                    ),
                },
                None => self.spec_create_verdict(fmt, caps),
            },
        }
    }

    /// The state after a negotiation of `fmt` has opened. A rejection by
    /// the capabilities changes nothing. A reconfiguration adjusts the
    /// geometry, and puts the new format in force where the device need not
    /// be asked.
    pub open spec fn spec_after_begin_sequence(
        self,
        fmt: VideoFormat,
        caps: DecodeCaps,
    ) -> Negotiator {
        match spec_check_capabilities(fmt, caps) {
            Some(_) => self,
            None => match self.video_fmt {
                Some(old_fmt) => match self.spec_reconfigure_decision(old_fmt, fmt) {
                    ReconfigureDecision::Recreate => self,
                    ReconfigureDecision::Tolerated => Negotiator { video_fmt: Some(fmt), ..self },
                    ReconfigureDecision::Recomputed => Negotiator {
                        video_fmt: Some(fmt),
                        ..self.spec_after_reconfigure(old_fmt, fmt)
                    },
                    ReconfigureDecision::Request(_) => self.spec_after_reconfigure(old_fmt, fmt),
                },
                None => self.spec_after_create_verdict(fmt, caps),
            },
        }
    }

    /// Opens the negotiation of the format `fmt`, given the device's answer
    /// `caps` to `capability_query(fmt)`.
    pub fn begin_sequence(&mut self, fmt: &VideoFormat, caps: &DecodeCaps) -> (r: Result<
        SequenceStep,
        NVCodecError,
    >)
        ensures
            meets_verdict(r, old(self).spec_begin_sequence(*fmt, *caps), *fmt, *caps),
            *final(self) == old(self).spec_after_begin_sequence(*fmt, *caps),
            r != Err::<SequenceStep, NVCodecError>(NVCodecError::ReconfigureFailed),
    {
        match check_capabilities(*fmt, *caps) {
            Some(rejection) => {
                return Err(rejection_error(rejection, *fmt, *caps));
            },
            None => {},
        }
        if self.video_fmt.is_some() {
            match self.reconfigure_decoder(fmt) {
                Ok(ReconfigureDecision::Request(request)) => {
                    return Ok(SequenceStep::Reconfigure(request));
                },
                Ok(_) => {
                    self.video_fmt = Some(*fmt);
                    return Ok(SequenceStep::Done { surfaces: surface_count(*fmt) });
                },
                Err(_) => {
                    return Ok(SequenceStep::Destroy);
                },
            }
        }
        self.create_step(fmt, caps)
    }

    /// How a negotiation goes on once the device has answered `step` with
    /// `status`.
    /// - A failure status ends the negotiation with that status.
    /// - A reconfiguration or a creation that succeeded ends it with the
    ///   number of surfaces that was requested.
    /// - A destruction that succeeded is followed by a creation.
    /// - `Done` stays `Done`.
    pub open spec fn spec_complete_step(
        self,
        step: SequenceStep,
        status: u32,
        fmt: VideoFormat,
        caps: DecodeCaps,
    ) -> Verdict {
        match step {
            SequenceStep::Done { surfaces } => Verdict::Step(SequenceStep::Done { surfaces }),
            _ => if status != CUDA_SUCCESS {
                Verdict::Status(status)
            } else {
                match step {
                    SequenceStep::Reconfigure(request) => Verdict::Step(
                        SequenceStep::Done { surfaces: request.num_decode_surfaces },
                    ),
                    SequenceStep::Destroy => Negotiator {
                        decoder_live: false,
                        ..self
                    }.spec_create_verdict(fmt, caps),
                    SequenceStep::Create(info) => Verdict::Step(
                        SequenceStep::Done { surfaces: info.num_decode_surfaces },
                    ),
                    SequenceStep::Done { surfaces } => Verdict::Step(
                        SequenceStep::Done { surfaces },
                    ),
                }
            },
        }
    }

    /// The state once the device has answered `step` with `status`. A
    /// failure changes nothing. A reconfiguration that succeeded puts the
    /// new format in force; a destruction that succeeded leaves no decoder
    /// and plans the creation; a creation that succeeded leaves a decoder.
    pub open spec fn spec_after_complete_step(
        self,
        step: SequenceStep,
        status: u32,
        fmt: VideoFormat,
        caps: DecodeCaps,
    ) -> Negotiator {
        if status != CUDA_SUCCESS {
            self
        } else {
            match step {
                SequenceStep::Done { .. } => self,
                SequenceStep::Reconfigure(_) => Negotiator { video_fmt: Some(fmt), ..self },
                SequenceStep::Destroy => Negotiator {
                    decoder_live: false,
                    ..self
                }.spec_after_create_verdict(fmt, caps),
                SequenceStep::Create(_) => Negotiator { decoder_live: true, ..self },
            }
        }
    }

    /// Continues the negotiation of `fmt` after the device has answered the
    /// request of `step` with `status`.
    pub fn complete_step(
        &mut self,
        step: SequenceStep,
        status: u32,
        fmt: &VideoFormat,
        caps: &DecodeCaps,
    ) -> (r: Result<SequenceStep, NVCodecError>)
        ensures
            meets_verdict(
                r,
                old(self).spec_complete_step(step, status, *fmt, *caps),
                *fmt,
                *caps,
            ),
            *final(self) == old(self).spec_after_complete_step(step, status, *fmt, *caps),
            r != Err::<SequenceStep, NVCodecError>(NVCodecError::ReconfigureFailed),
    {
        match step {
            SequenceStep::Done { surfaces } => Ok(SequenceStep::Done { surfaces }),
            SequenceStep::Reconfigure(request) => {
                if status != CUDA_SUCCESS {
                    return Err(NVCodecError::CuError(status));
                }
                self.video_fmt = Some(*fmt);
                Ok(SequenceStep::Done { surfaces: request.num_decode_surfaces })
            },
            SequenceStep::Destroy => {
                if status != CUDA_SUCCESS {
                    return Err(NVCodecError::CuError(status));
                }
                self.decoder_live = false;
                self.create_step(fmt, caps)
            },
            SequenceStep::Create(info) => {
                if status != CUDA_SUCCESS {
                    return Err(NVCodecError::CuError(status));
                }
                self.decoder_live = true;
                Ok(SequenceStep::Done { surfaces: info.num_decode_surfaces })
            },
        }
    }
}

/// Whether a verdict ends a negotiation: the surface count, a failure of
/// the device, or a rejection.
pub open spec fn spec_is_final(verdict: Verdict) -> bool {
    verdict matches Verdict::Step(step) ==> step is Done
}

impl Negotiator {
    /// A negotiation carried on from `verdict`, with the device answering
    /// the requests one after the other with `statuses`: the verdict and
    /// the state at which it stops, which is when the verdict is final or
    /// the answers run out.
    pub open spec fn spec_drive(
        self,
        verdict: Verdict,
        fmt: VideoFormat,
        caps: DecodeCaps,
        statuses: Seq<u32>,
    ) -> (Verdict, Negotiator)
        decreases statuses.len(),
    {
        match verdict {
            Verdict::Step(step) => if step is Done || statuses.len() == 0 {
                (verdict, self)
            } else {
                self.spec_after_complete_step(step, statuses[0], fmt, caps).spec_drive(
                    self.spec_complete_step(step, statuses[0], fmt, caps),
                    fmt,
                    caps,
                    statuses.skip(1),
                )
            },
            _ => (verdict, self),
        }
    }

    /// A whole negotiation of `fmt`, opened on this state and carried on
    /// with the device's answers `statuses`.
    pub open spec fn spec_negotiate(
        self,
        fmt: VideoFormat,
        caps: DecodeCaps,
        statuses: Seq<u32>,
    ) -> (Verdict, Negotiator) {
        self.spec_after_begin_sequence(fmt, caps).spec_drive(
            self.spec_begin_sequence(fmt, caps),
            fmt,
            caps,
            statuses,
        )
    }
}

/// A negotiation needs at most two answers of the device: with two or more
/// it always reaches a final verdict.
pub proof fn lemma_negotiation_ends(
    s: Negotiator,
    fmt: VideoFormat,
    caps: DecodeCaps,
    statuses: Seq<u32>,
)
    requires
        statuses.len() >= 2,
    ensures
        spec_is_final(s.spec_negotiate(fmt, caps, statuses).0),
{
    reveal_with_fuel(Negotiator::spec_drive, 3);
}

/// A format that the capabilities rule out fails the negotiation at once,
/// with the reason the capabilities give: the device is asked nothing, and
/// the state stays as it was, so that no decoder comes into being.
pub proof fn lemma_rejected_format_changes_nothing(
    s: Negotiator,
    fmt: VideoFormat,
    caps: DecodeCaps,
    statuses: Seq<u32>,
)
    requires
        spec_check_capabilities(fmt, caps).is_some(),
    ensures
        s.spec_negotiate(fmt, caps, statuses) == (
            Verdict::Rejected(spec_check_capabilities(fmt, caps).unwrap()),
            s,
        ),
{
    reveal_with_fuel(Negotiator::spec_drive, 2);
}

/// The reconfiguration table, for a format `fmt` that the capabilities
/// admit and that has the bit depths and the chroma layout of the format
/// `old_fmt` in force.
/// - A coded size beyond the running maxima, for any codec but VP9: the
///   decoder is to be destroyed, and nothing has changed yet.
/// - The same for VP9: the negotiation is over at once, the new format is
///   in force, and nothing else has changed.
/// - The coded size of before: the negotiation is over at once, without
///   any request to the device, the new format is in force, and the output
///   geometry follows the new display rectangle where that moved.
/// - Another coded size within the maxima: the device is asked to
///   reconfigure, to the new coded size and the output size of before.
pub proof fn lemma_reconfiguration_table(
    s: Negotiator,
    old_fmt: VideoFormat,
    fmt: VideoFormat,
    caps: DecodeCaps,
)
    requires
        s.video_fmt == Some(old_fmt),
        spec_check_capabilities(fmt, caps).is_none(),
        old_fmt.bit_depth_luma_minus8 == fmt.bit_depth_luma_minus8,
        old_fmt.bit_depth_chroma_minus8 == fmt.bit_depth_chroma_minus8,
        old_fmt.chroma_format == fmt.chroma_format,
    ensures
        ({
            let beyond = fmt.coded_width > s.max_width || fmt.coded_height > s.max_height;
            let same_size = fmt.coded_width == old_fmt.coded_width && fmt.coded_height
                == old_fmt.coded_height;
            let verdict = s.spec_begin_sequence(fmt, caps);
            let after = s.spec_after_begin_sequence(fmt, caps);
            let done = Verdict::Step(SequenceStep::Done { surfaces: spec_surface_count(fmt) });
            &&& beyond && old_fmt.codec != CuVideoCodecType::VP9.spec_code() ==> {
                &&& verdict == Verdict::Step(SequenceStep::Destroy)
                &&& after == s
            }
            &&& beyond && old_fmt.codec == CuVideoCodecType::VP9.spec_code() ==> {
                &&& verdict == done
                &&& after == Negotiator { video_fmt: Some(fmt), ..s }
            }
            &&& !beyond && same_size ==> {
                &&& verdict == done
                &&& after.decoder_live == s.decoder_live
                &&& after.video_fmt == Some(fmt)
                &&& after.max_width == s.max_width && after.max_height == s.max_height
                &&& old_fmt.display_area == fmt.display_area ==> after == Negotiator {
                    video_fmt: Some(fmt),
                    ..s
                }
                &&& old_fmt.display_area != fmt.display_area ==> {
                    &&& after.width == fmt.display_area.spec_width()
                    &&& after.luma_height == fmt.display_area.spec_height()
                    &&& after.chroma_height == spec_chroma_height(
                        fmt.display_area.spec_height(),
                        fmt.chroma_format,
                    )
                }
            }
            &&& !beyond && !same_size ==> {
                &&& verdict matches Verdict::Step(SequenceStep::Reconfigure(request))
                &&& request.width == fmt.coded_width && request.height == fmt.coded_height
                &&& request.target_width == s.width && request.target_height == s.luma_height
                &&& after.video_fmt == Some(old_fmt)
                &&& after.decoder_live == s.decoder_live
            }
        }),
{
}

/// A change of bit depth or of chroma layout always forces recreation.
pub proof fn lemma_depth_or_chroma_change_recreates(
    s: Negotiator,
    old_fmt: VideoFormat,
    fmt: VideoFormat,
    caps: DecodeCaps,
)
    requires
        s.video_fmt == Some(old_fmt),
        spec_check_capabilities(fmt, caps).is_none(),
        old_fmt.bit_depth_luma_minus8 != fmt.bit_depth_luma_minus8
            || old_fmt.bit_depth_chroma_minus8 != fmt.bit_depth_chroma_minus8
            || old_fmt.chroma_format != fmt.chroma_format,
    ensures
        s.spec_begin_sequence(fmt, caps) == Verdict::Step(SequenceStep::Destroy),
        s.spec_after_begin_sequence(fmt, caps) == s,
{
}

/// The derived fields stay consistent with the format in force through a
/// whole negotiation, however the device answers.
pub proof fn lemma_negotiation_keeps_consistency(
    s: Negotiator,
    fmt: VideoFormat,
    caps: DecodeCaps,
    statuses: Seq<u32>,
)
    requires
        s.consistent(),
    ensures
        s.spec_negotiate(fmt, caps, statuses).1.consistent(),
{
    reveal_with_fuel(Negotiator::spec_drive, 4);
    let opened = s.spec_after_begin_sequence(fmt, caps);
    assert(opened.consistent());
}

/// A decoder exists after a negotiation only if one existed before and was
/// not destroyed, or if the negotiation ended well on a creation: a
/// negotiation that fails or is rejected never brings a decoder into
/// being, and the running maxima never shrink.
pub proof fn lemma_decoder_only_after_success(
    s: Negotiator,
    fmt: VideoFormat,
    caps: DecodeCaps,
    statuses: Seq<u32>,
)
    ensures
        ({
            let (verdict, after) = s.spec_negotiate(fmt, caps, statuses);
            &&& after.decoder_live && !s.decoder_live ==> verdict is Step && spec_is_final(
                verdict,
            )
            &&& after.max_width >= s.max_width
            &&& after.max_height >= s.max_height
            &&& after.crop == s.crop
            &&& after.target_size == s.target_size
            &&& after.keyframe_only == s.keyframe_only
        }),
{
    reveal_with_fuel(Negotiator::spec_drive, 4);
}

} // verus!
