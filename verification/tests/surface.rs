use nvcodec::format::{
    CHROMA_FORMAT_420, CHROMA_FORMAT_422, CHROMA_FORMAT_444, CHROMA_FORMAT_MONOCHROME,
};
use nvcodec::surface::{
    mask_allows, preferred_format, select_output_format, VideoSurfaceFormat,
};

const ALL: [VideoSurfaceFormat; 4] = [
    VideoSurfaceFormat::NV12,
    VideoSurfaceFormat::P016,
    VideoSurfaceFormat::YUV444,
    VideoSurfaceFormat::YUV444_16Bit,
];

#[test]
fn format_codes() {
    assert_eq!(VideoSurfaceFormat::NV12.code(), 0);
    assert_eq!(VideoSurfaceFormat::P016.code(), 1);
    assert_eq!(VideoSurfaceFormat::YUV444.code(), 2);
    assert_eq!(VideoSurfaceFormat::YUV444_16Bit.code(), 3);
    for f in ALL {
        assert_eq!(VideoSurfaceFormat::from_code(f.code()), Some(f));
    }
    assert_eq!(VideoSurfaceFormat::from_code(4), None);
    assert_eq!(VideoSurfaceFormat::from_code(u16::MAX), None);
}

#[test]
fn mask_bits() {
    assert!(mask_allows(0b0001, VideoSurfaceFormat::NV12));
    assert!(!mask_allows(0b0001, VideoSurfaceFormat::P016));
    assert!(mask_allows(0b0010, VideoSurfaceFormat::P016));
    assert!(mask_allows(0b0100, VideoSurfaceFormat::YUV444));
    assert!(mask_allows(0b1000, VideoSurfaceFormat::YUV444_16Bit));
    assert!(!mask_allows(0b0111, VideoSurfaceFormat::YUV444_16Bit));
    assert!(!mask_allows(0xfff0, VideoSurfaceFormat::NV12));
    for f in ALL {
        assert!(!mask_allows(0, f));
        assert!(mask_allows(0xffff, f));
    }
}

#[test]
fn the_four_combinations_have_their_formats() {
    assert_eq!(preferred_format(CHROMA_FORMAT_420, 0), VideoSurfaceFormat::NV12);
    assert_eq!(preferred_format(CHROMA_FORMAT_420, 2), VideoSurfaceFormat::P016);
    assert_eq!(preferred_format(CHROMA_FORMAT_444, 0), VideoSurfaceFormat::YUV444);
    assert_eq!(preferred_format(CHROMA_FORMAT_444, 4), VideoSurfaceFormat::YUV444_16Bit);
}

#[test]
fn other_chroma_layouts_prefer_nv12() {
    assert_eq!(preferred_format(CHROMA_FORMAT_MONOCHROME, 0), VideoSurfaceFormat::NV12);
    assert_eq!(preferred_format(CHROMA_FORMAT_422, 2), VideoSurfaceFormat::NV12);
    assert_eq!(preferred_format(77, 2), VideoSurfaceFormat::NV12);
}

#[test]
fn the_mapped_format_is_selected_when_allowed() {
    for mask in 0u16..16 {
        for (chroma, depth) in [
            (CHROMA_FORMAT_420, 0u8),
            (CHROMA_FORMAT_420, 2),
            (CHROMA_FORMAT_444, 0),
            (CHROMA_FORMAT_444, 2),
        ] {
            let preferred = preferred_format(chroma, depth);
            if mask_allows(mask, preferred) {
                assert_eq!(select_output_format(chroma, depth, mask), Some(preferred));
            }
        }
    }
}

#[test]
fn the_fallback_follows_the_fixed_order() {
    assert_eq!(
        select_output_format(CHROMA_FORMAT_444, 2, 0b0111),
        Some(VideoSurfaceFormat::NV12)
    );
    assert_eq!(
        select_output_format(CHROMA_FORMAT_444, 2, 0b0110),
        Some(VideoSurfaceFormat::P016)
    );
    assert_eq!(
        select_output_format(CHROMA_FORMAT_444, 2, 0b0100),
        Some(VideoSurfaceFormat::YUV444)
    );
    assert_eq!(
        select_output_format(CHROMA_FORMAT_420, 0, 0b1000),
        Some(VideoSurfaceFormat::YUV444_16Bit)
    );
    assert_eq!(
        select_output_format(CHROMA_FORMAT_420, 0, 0b1110),
        Some(VideoSurfaceFormat::P016)
    );
    assert_eq!(
        select_output_format(CHROMA_FORMAT_420, 2, 0b1101),
        Some(VideoSurfaceFormat::NV12)
    );
}

#[test]
fn selection_fails_only_when_none_of_the_four_is_allowed() {
    for mask in [0u16, 0b1_0000, 0xfff0] {
        for chroma in [CHROMA_FORMAT_420, CHROMA_FORMAT_444, CHROMA_FORMAT_422] {
            for depth in [0u8, 2] {
                assert_eq!(select_output_format(chroma, depth, mask), None);
            }
        }
    }
    for mask in 1u16..16 {
        for chroma in [CHROMA_FORMAT_420, CHROMA_FORMAT_444, CHROMA_FORMAT_422] {
            for depth in [0u8, 2] {
                let chosen = select_output_format(chroma, depth, mask).unwrap();
                assert!(mask_allows(mask, chosen));
            }
        }
    }
}
