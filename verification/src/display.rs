//! The picture dispatchers' decisions: what to ask of the device for a
//! display-ready picture, how to read its decode status, and how large the
//! buffer of a frame is.

use vstd::prelude::*;
use crate::error::{NVCodecError, CUDA_SUCCESS};
use crate::delivery::PROCEED;
use crate::negotiate::Negotiator;

verus! {

/// Decode status of a picture that could not be decoded.
pub const DECODE_STATUS_ERROR: u32 = 8;

/// Decode status of a picture whose errors were concealed.
pub const DECODE_STATUS_ERROR_CONCEALED: u32 = 9;

/// A display-ready picture, as the parser announces it.
#[derive(Clone, Copy, Debug, PartialEq, Eq, Structural)]
pub struct DisplayInfo {
    /// Index of the decode surface that holds the picture.
    pub picture_index: i32,
    /// Non-zero for a progressive frame.
    pub progressive_frame: i32,
    /// Non-zero where the top field comes first.
    pub top_field_first: i32,
    /// Number of additional fields to show; negative for an unpaired field.
    pub repeat_first_field: i32,
    /// Presentation timestamp of the picture.
    pub timestamp: i64,
}

/// What the device is asked when a picture is mapped for output.
#[derive(Clone, Copy, Debug, PartialEq, Eq, Structural)]
pub struct MapRequest {
    pub picture_index: i32,
    pub progressive_frame: i32,
    /// One more than the number of additional fields.
    pub second_field: i64,
    pub top_field_first: i32,
    /// Whether the picture is a field without its pair.
    pub unpaired_field: bool,
}

/// The mapping request for a display-ready picture.
pub open spec fn spec_map_request(info: DisplayInfo) -> MapRequest {
    MapRequest {
        picture_index: info.picture_index,
        progressive_frame: info.progressive_frame,
        second_field: (info.repeat_first_field + 1) as i64,
        top_field_first: info.top_field_first,
        unpaired_field: info.repeat_first_field < 0,
    }
}

#[verifier::when_used_as_spec(spec_map_request)]
pub fn map_request(info: DisplayInfo) -> (request: MapRequest)
    ensures
        request == spec_map_request(info),
{
    MapRequest {
        picture_index: info.picture_index,
        progressive_frame: info.progressive_frame,
        second_field: info.repeat_first_field as i64 + 1,
        top_field_first: info.top_field_first,
        unpaired_field: info.repeat_first_field < 0,
    }
}

/// What the display dispatcher does with a call from the parser.
#[derive(Clone, Copy, Debug, PartialEq, Eq, Structural)]
pub enum DisplayStep {
    /// Nothing: nobody is there to deliver to.
    Skip,
    /// The call announced the end of the stream: the producer is closed.
    Close,
    /// Map the picture with this request, and go on to deliver it.
    MapPicture(MapRequest),
}

/// The display dispatcher's decision, from whether the producer is still
/// open, whether the consumer is gone, and what the call announces.
/// - With the producer closed or the consumer gone, the call is skipped,
///   whatever it announces.
/// - Otherwise a call without a picture announces the end of the stream,
///   and a call with a picture has the picture mapped.
pub open spec fn spec_display_step(
    open: bool,
    gone: bool,
    info: Option<DisplayInfo>,
) -> DisplayStep {
    if !open || gone {
        DisplayStep::Skip
    } else {
        match info {
            None => DisplayStep::Close,
            Some(info) => DisplayStep::MapPicture(spec_map_request(info)),
        }
    }
}

/// Decides what to do with a call of the display dispatcher.
#[verifier::when_used_as_spec(spec_display_step)]
pub fn display_step(open: bool, gone: bool, info: Option<DisplayInfo>) -> (step: DisplayStep)
    ensures
        step == spec_display_step(open, gone, info),
{
    if !open || gone {
        DisplayStep::Skip
    } else {
        match info {
            None => DisplayStep::Close,
            Some(info) => DisplayStep::MapPicture(map_request(info)),
        }
    }
}

/// Whether a decode status reports a picture the hardware failed on.
pub open spec fn spec_is_decode_failure(decode_status: u32) -> bool {
    decode_status == DECODE_STATUS_ERROR || decode_status == DECODE_STATUS_ERROR_CONCEALED
}

/// Reads the decode status of a mapped picture: an error status, concealed
/// or not, is a `DecodeError`; every other status lets the picture pass.
pub fn check_decode_status(decode_status: u32) -> (r: Result<(), NVCodecError>)
    ensures
        r == (if spec_is_decode_failure(decode_status) {
            Err::<(), NVCodecError>(NVCodecError::DecodeError)
        } else {
            Ok::<(), NVCodecError>(())
        }),
{
    if decode_status == DECODE_STATUS_ERROR || decode_status == DECODE_STATUS_ERROR_CONCEALED {
        Err(NVCodecError::DecodeError)
    } else {
        Ok(())
    }
}

/// What a callback answers after its last native call ended with `status`:
/// `PROCEED` on success, else the error that carries the status.
pub fn callback_outcome(status: u32) -> (r: Result<i32, NVCodecError>)
    ensures
        r == (if status == CUDA_SUCCESS {
            Ok::<i32, NVCodecError>(PROCEED)
        } else {
            Err::<i32, NVCodecError>(NVCodecError::CuError(status))
        }),
{
    if status == CUDA_SUCCESS {
        Ok(PROCEED)
    } else {
        Err(NVCodecError::CuError(status))
    }
}

/// What the display callback answers once a mapped picture has been
/// unmapped again, which happens whether or not the picture was delivered:
/// the failure of the delivery where there was one, else the failure of the
/// unmapping where it ended with a failure status, else `PROCEED`.
pub fn finish_mapped(delivered: Result<(), NVCodecError>, unmap_status: u32) -> (r: Result<
    i32,
    NVCodecError,
>)
    ensures
        r == (match delivered {
            Err(e) => Err::<i32, NVCodecError>(e),
            Ok(()) => if unmap_status == CUDA_SUCCESS {
                Ok::<i32, NVCodecError>(PROCEED)
            } else {
                Err::<i32, NVCodecError>(NVCodecError::CuError(unmap_status))
            },
        }),
{
    match delivered {
        Err(e) => Err(e),
        Ok(()) => callback_outcome(unmap_status),
    }
}

/// Size of the device buffer that holds one frame.
#[derive(Clone, Copy, Debug, PartialEq, Eq, Structural)]
pub struct FrameLayout {
    /// Bytes in a row: output width times bytes per sample.
    pub row_bytes: u64,
    /// Rows: the luma plane's, then those of each chroma plane.
    pub rows: u64,
}

impl Negotiator {
    /// Bytes in a row of a frame.
    pub open spec fn spec_row_bytes(self) -> int {
        self.width * self.bpp
    }

    /// Rows of a frame, all planes together.
    pub open spec fn spec_rows(self) -> int {
        self.luma_height + self.chroma_height * self.num_chroma_planes
    }

    /// Whether the negotiated geometry describes a buffer.
    pub open spec fn spec_has_layout(self) -> bool {
        &&& 0 <= self.spec_row_bytes() <= u64::MAX
        &&& 0 <= self.spec_rows() <= u64::MAX
    }

    /// The buffer size of the negotiated geometry, where it describes one.
    pub open spec fn spec_layout(self) -> FrameLayout {
        FrameLayout { row_bytes: self.spec_row_bytes() as u64, rows: self.spec_rows() as u64 }
    }

    /// The size of the buffer that a frame of the negotiated geometry
    /// needs, or `SurfaceShapeMismatch` where the geometry describes none:
    /// where a size is negative or beyond 64 bits.
    pub fn frame_layout(&self) -> (r: Result<FrameLayout, NVCodecError>)
        ensures
            self.spec_has_layout() ==> r == Ok::<FrameLayout, NVCodecError>(self.spec_layout()),
            !self.spec_has_layout() ==> r == Err::<FrameLayout, NVCodecError>(
                NVCodecError::SurfaceShapeMismatch,
            ),
    {
        let width = self.width as i128;
        let bpp = self.bpp as i128;
        let luma = self.luma_height as i128;
        let chroma = self.chroma_height as i128;
        let planes = self.num_chroma_planes as i128;
        assert(-0x8000_0000_0000_0000_0000_0000 <= width * bpp <= 0x8000_0000_0000_0000_0000_0000)
            by (nonlinear_arith)
            requires
                -0x8000_0000_0000_0000 <= width <= 0x8000_0000_0000_0000,
                0 <= bpp <= 0x1_0000_0000,
        ;
        assert(-0x8000_0000_0000_0000_0000_0000 <= chroma * planes
            <= 0x8000_0000_0000_0000_0000_0000) by (nonlinear_arith)
            requires
                -0x8000_0000_0000_0000 <= chroma <= 0x8000_0000_0000_0000,
                0 <= planes <= 0x1_0000_0000,
        ;
        let row_bytes = width * bpp;
        let rows = luma + chroma * planes;
        if 0 <= row_bytes && row_bytes <= u64::MAX as i128 && 0 <= rows && rows <= u64::MAX as i128 {
            Ok(FrameLayout { row_bytes: row_bytes as u64, rows: rows as u64 })
        } else {
            Err(NVCodecError::SurfaceShapeMismatch)
        }
    }

    /// What to do with a picture that has been mapped, once its decode
    /// status has been queried: the answer, in this order of precedence, is
    /// the error of a query that failed with `query_status`, `DecodeError`
    /// for a picture the hardware failed on, `SurfaceShapeMismatch` for a
    /// geometry without a buffer, and else the size of the buffer to copy
    /// the picture into.
    pub fn frame_plan(&self, query_status: u32, decode_status: u32) -> (r: Result<
        FrameLayout,
        NVCodecError,
    >)
        ensures
            r == (if query_status != CUDA_SUCCESS {
                Err::<FrameLayout, NVCodecError>(NVCodecError::CuError(query_status))
            } else if spec_is_decode_failure(decode_status) {
                Err::<FrameLayout, NVCodecError>(NVCodecError::DecodeError)
            } else if !self.spec_has_layout() {
                Err::<FrameLayout, NVCodecError>(NVCodecError::SurfaceShapeMismatch)
            } else {
                Ok::<FrameLayout, NVCodecError>(self.spec_layout())
            }),
    {
        if query_status != CUDA_SUCCESS {
            return Err(NVCodecError::CuError(query_status));
        }
        match check_decode_status(decode_status) {
            Err(error) => Err(error),
            Ok(()) => self.frame_layout(),
        }
    }

    /// Whether a picture can be handed to the decoder: a decoder instance
    /// must exist, else the answer is `DecoderNotInitialized`.
    pub fn picture_decode_ready(&self) -> (r: Result<(), NVCodecError>)
        ensures
            r == (if self.decoder_live {
                Ok::<(), NVCodecError>(())
            } else {
                Err::<(), NVCodecError>(NVCodecError::DecoderNotInitialized)
            }),
    {
        if self.decoder_live {
            Ok(())
        } else {
            Err(NVCodecError::DecoderNotInitialized)
        }
    }
}

} // verus!
