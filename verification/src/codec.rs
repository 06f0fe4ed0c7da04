//! Codecs the device decodes, and the stream codec identifiers they come from.

use vstd::prelude::*;

verus! {

/// A codec the hardware decoder knows.
#[derive(Clone, Copy, Debug, PartialEq, Eq, Structural)]
pub enum CuVideoCodecType {
    MPEG1,
    MPEG2,
    MPEG4,
    VC1,
    H264,
    JPEG,
    HEVC,
    VP8,
    VP9,
    AV1,
}

/// The codec identifier a bitstream source declares for its video stream.
/// `Other` stands for every identifier the decoder has no codec for.
#[derive(Clone, Copy, Debug, PartialEq, Eq, Structural)]
pub enum CodecId {
    MPEG1VIDEO,
    MPEG2VIDEO,
    MPEG4,
    VC1,
    H264,
    JPEG2000,
    HEVC,
    VP8,
    VP9,
    AV1,
    Other,
}

impl CuVideoCodecType {
    /// The device's code of the codec.
    pub open spec fn spec_code(self) -> u32 {
        match self {
            CuVideoCodecType::MPEG1 => 0,
            CuVideoCodecType::MPEG2 => 1,
            CuVideoCodecType::MPEG4 => 2,
            CuVideoCodecType::VC1 => 3,
            CuVideoCodecType::H264 => 4,
            CuVideoCodecType::JPEG => 5,
            CuVideoCodecType::HEVC => 8,
            CuVideoCodecType::VP8 => 9,
            CuVideoCodecType::VP9 => 10,
            CuVideoCodecType::AV1 => 11,
        }
    }

    #[verifier::when_used_as_spec(spec_code)]
    pub fn code(self) -> (c: u32)
        ensures
            c == self.spec_code(),
    {
        match self {
            CuVideoCodecType::MPEG1 => 0,
            CuVideoCodecType::MPEG2 => 1,
            CuVideoCodecType::MPEG4 => 2,
            CuVideoCodecType::VC1 => 3,
            CuVideoCodecType::H264 => 4,
            CuVideoCodecType::JPEG => 5,
            CuVideoCodecType::HEVC => 8,
            CuVideoCodecType::VP8 => 9,
            CuVideoCodecType::VP9 => 10,
            CuVideoCodecType::AV1 => 11,
        }
    }

    /// The codec with the given device code, if this library knows it.
    pub fn from_code(code: u32) -> (c: Option<CuVideoCodecType>)
        ensures
            c matches Some(codec) ==> codec.spec_code() == code,
            c.is_none() ==> forall|codec: CuVideoCodecType| codec.spec_code() != code,
    {
        if code == 0 {
            Some(CuVideoCodecType::MPEG1)
        } else if code == 1 {
            Some(CuVideoCodecType::MPEG2)
        } else if code == 2 {
            Some(CuVideoCodecType::MPEG4)
        } else if code == 3 {
            Some(CuVideoCodecType::VC1)
        } else if code == 4 {
            Some(CuVideoCodecType::H264)
        } else if code == 5 {
            Some(CuVideoCodecType::JPEG)
        } else if code == 8 {
            Some(CuVideoCodecType::HEVC)
        } else if code == 9 {
            Some(CuVideoCodecType::VP8)
        } else if code == 10 {
            Some(CuVideoCodecType::VP9)
        } else if code == 11 {
            Some(CuVideoCodecType::AV1)
        } else {
            None
        }
    }

    /// The codec that decodes streams of the given identifier, if there is
    /// one: each of the ten known identifiers has the codec of its name.
    pub open spec fn spec_from_codec_id(id: CodecId) -> Option<CuVideoCodecType> {
        match id {
            CodecId::MPEG1VIDEO => Some(CuVideoCodecType::MPEG1),
            CodecId::MPEG2VIDEO => Some(CuVideoCodecType::MPEG2),
            CodecId::MPEG4 => Some(CuVideoCodecType::MPEG4),
            CodecId::VC1 => Some(CuVideoCodecType::VC1),
            CodecId::H264 => Some(CuVideoCodecType::H264),
            CodecId::JPEG2000 => Some(CuVideoCodecType::JPEG),
            CodecId::HEVC => Some(CuVideoCodecType::HEVC),
            CodecId::VP8 => Some(CuVideoCodecType::VP8),
            CodecId::VP9 => Some(CuVideoCodecType::VP9),
            CodecId::AV1 => Some(CuVideoCodecType::AV1),
            CodecId::Other => None,
        }
    }

    /// The codec that decodes streams of the given identifier. There is
    /// none for `CodecId::Other`, which callers have to leave out.
    pub fn from_codec_id(id: CodecId) -> (c: CuVideoCodecType)
        requires
            id != CodecId::Other,
        ensures
            Self::spec_from_codec_id(id) == Some(c),
    {
        match id {
            CodecId::MPEG1VIDEO => CuVideoCodecType::MPEG1,
            CodecId::MPEG2VIDEO => CuVideoCodecType::MPEG2,
            CodecId::MPEG4 => CuVideoCodecType::MPEG4,
            CodecId::VC1 => CuVideoCodecType::VC1,
            CodecId::H264 => CuVideoCodecType::H264,
            CodecId::JPEG2000 => CuVideoCodecType::JPEG,
            CodecId::HEVC => CuVideoCodecType::HEVC,
            CodecId::VP8 => CuVideoCodecType::VP8,
            CodecId::VP9 => CuVideoCodecType::VP9,
            CodecId::AV1 => CuVideoCodecType::AV1,
            CodecId::Other => vstd::pervasive::unreached(),
        }
    }
}

/// The device code of the codec for a stream identifier. There is none for
/// `CodecId::Other`, which callers have to leave out.
pub fn to_cuda_codec_id(id: CodecId) -> (code: u32)
    requires
        id != CodecId::Other,
    ensures
        CuVideoCodecType::spec_from_codec_id(id) matches Some(codec) && code == codec.spec_code(),
{
    CuVideoCodecType::from_codec_id(id).code()
}

/// Different identifiers have different codecs: VP9, the one codec that
/// tolerates a coded size beyond the decoder's, comes from the VP9
/// identifier alone.
pub proof fn lemma_codec_of_identifier_injective(a: CodecId, b: CodecId)
    requires
        a != CodecId::Other,
        CuVideoCodecType::spec_from_codec_id(a) == CuVideoCodecType::spec_from_codec_id(b),
    ensures
        a == b,
{
}

/// Name of the bitstream filter that brings a stream into the byte-stream
/// form the parser reads: H.264 and HEVC streams need one, others do not.
pub fn bitstream_filter_name(id: CodecId) -> (name: Option<&'static str>)
    ensures
        id == CodecId::H264 ==> name.is_some() && name.unwrap()@ == "h264_mp4toannexb"@,
        id == CodecId::HEVC ==> name.is_some() && name.unwrap()@ == "hevc_mp4toannexb"@,
        id != CodecId::H264 && id != CodecId::HEVC ==> name.is_none(),
{
    match id {
        CodecId::H264 => Some("h264_mp4toannexb"),
        CodecId::HEVC => Some("hevc_mp4toannexb"),
        _ => None,
    }
}

/// Distinct codecs have distinct device codes, so a code names at most one
/// codec.
pub proof fn lemma_codec_code_injective(a: CuVideoCodecType, b: CuVideoCodecType)
    ensures
        a.spec_code() == b.spec_code() <==> a == b,
{
}

} // verus!
