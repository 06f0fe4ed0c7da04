//! The errors of a decode session.

use vstd::prelude::*;

verus! {

/// Status code with which a native call reports success.
pub const CUDA_SUCCESS: u32 = 0;

/// Everything that can go wrong around a decode session.
#[derive(Debug, PartialEq, Eq)]
pub enum NVCodecError {
    /// The bitstream source could not be read; carries its message.
    IOError(String),
    /// The demuxing library failed; carries its status code.
    FFmpegError(i32),
    /// A native call failed; carries its status code.
    CuError(u32),
    /// The device cannot decode the stream; carries a diagnostic message.
    NotSupported(String),
    /// A picture arrived before any decoder instance existed.
    DecoderNotInitialized,
    /// The hardware reported a corrupted picture.
    DecodeError,
    /// The parser could not be driven.
    ParserError,
    /// A surface's geometry does not describe a buffer.
    SurfaceShapeMismatch,
    /// An existing decoder cannot take the new format in place. Only ever
    /// passed between the steps of a negotiation, which answers it by
    /// recreating the decoder.
    ReconfigureFailed,
}

/// Result of an operation of this library.
pub type NVCodecResult<T> = Result<T, NVCodecError>;

/// What a native status code means: success for `CUDA_SUCCESS`, and for
/// every other code the error that carries it.
pub open spec fn spec_check_status(status: u32) -> Result<(), NVCodecError> {
    if status == CUDA_SUCCESS {
        Ok(())
    } else {
        Err(NVCodecError::CuError(status))
    }
}

/// Turns the status code of a native call into a result.
#[verifier::when_used_as_spec(spec_check_status)]
pub fn check_status(status: u32) -> (r: Result<(), NVCodecError>)
    ensures
        r == spec_check_status(status),
{
    if status == CUDA_SUCCESS {
        Ok(())
    } else {
        Err(NVCodecError::CuError(status))
    }
}

} // verus!
