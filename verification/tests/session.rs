use nvcodec::codec::CuVideoCodecType;
use nvcodec::delivery::{Consumer, Polled, ABORT};
use nvcodec::display::{
    callback_outcome, check_decode_status, display_step, finish_mapped, map_request,
    DisplayInfo, DisplayStep, FrameLayout, MapRequest,
};
use nvcodec::error::NVCodecError;
use nvcodec::format::{DecodeCaps, DisplayArea, Size, VideoFormat, CHROMA_FORMAT_420};
use nvcodec::negotiate::{Negotiator, SequenceStep};
use nvcodec::packet::{Packet, PacketData};
use nvcodec::session::{
    parser_config, DecodeSession, ParserConfig, Resource, Submission, END_OF_STREAM_FLAGS,
    PACKET_ENDOFSTREAM, PACKET_TIMESTAMP,
};
use std::sync::Arc;
use std::task::{Wake, Waker};

struct Sleeper;

impl Wake for Sleeper {
    fn wake(self: Arc<Self>) {}
}

fn waker() -> Waker {
    Waker::from(Arc::new(Sleeper))
}

fn new_session() -> (DecodeSession<Vec<u8>>, Consumer<Vec<u8>>) {
    DecodeSession::new(None, None, false)
}

fn packet(pts: i64) -> Packet {
    Packet {
        payload_len: Some(1000 + pts as usize),
        pts: Some(pts),
        dts: Some(pts - 2),
        key: pts % 30 == 0,
        position: (pts * 1000) as isize,
        duration: 1,
    }
}

fn info(index: i32, timestamp: i64) -> DisplayInfo {
    DisplayInfo {
        picture_index: index,
        progressive_frame: 1,
        top_field_first: 0,
        repeat_first_field: 0,
        timestamp,
    }
}

fn format_1080p() -> VideoFormat {
    VideoFormat {
        codec: CuVideoCodecType::H264.code(),
        chroma_format: CHROMA_FORMAT_420,
        bit_depth_luma_minus8: 0,
        bit_depth_chroma_minus8: 0,
        progressive_sequence: true,
        coded_width: 1920,
        coded_height: 1088,
        display_area: DisplayArea { top: 0, left: 0, bottom: 1080, right: 1920 },
        min_num_decode_surfaces: 5,
    }
}

fn caps() -> DecodeCaps {
    DecodeCaps {
        is_supported: true,
        max_width: 4096,
        max_height: 4096,
        max_mb_count: 65536,
        output_format_mask: 0b1111,
    }
}

/// Shows the picture under `timestamp` as a caller with a device would:
/// the mapping and the copy always succeed.
fn show(session: &mut DecodeSession<Vec<u8>>, index: i32, timestamp: i64) -> i32 {
    let shown = info(index, timestamp);
    match session.begin_display(Some(&shown)) {
        DisplayStep::Skip => 1,
        DisplayStep::Close => panic!("a picture cannot close the stream"),
        DisplayStep::MapPicture(_) => {
            let outcome = match session.negotiator.frame_plan(0, 2) {
                Err(e) => Err(e),
                Ok(layout) => {
                    session.finish_display(vec![index as u8; layout.rows as usize], timestamp);
                    callback_outcome(0)
                }
            };
            session.producer.settle(outcome)
        }
    }
}

#[test]
fn a_new_session_is_blank() {
    let crop = DisplayArea { top: 0, left: 0, bottom: 100, right: 200 };
    let size = Size { width: 50, height: 25 };
    let (session, _consumer): (DecodeSession<u8>, Consumer<u8>) =
        DecodeSession::new(Some(crop), Some(size), true);
    assert_eq!(session.negotiator, Negotiator::new(Some(crop), Some(size), true));
    assert!(!session.eos);
    assert!(session.packets.is_empty());
    assert!(session.producer.open());
}

#[test]
fn parser_setup() {
    assert_eq!(
        parser_config(CuVideoCodecType::HEVC),
        ParserConfig { codec_type: 8, max_num_decode_surfaces: 1, max_display_delay: 1 }
    );
    assert_eq!(parser_config(CuVideoCodecType::AV1).codec_type, 11);
}

#[test]
fn a_packet_is_fed_under_its_timestamp_and_remembered() {
    let (mut session, _consumer) = new_session();
    let p = packet(90);
    assert_eq!(
        session.submit(Some(&p)),
        Submission::Feed { flags: 2, payload_size: 1090, timestamp: 90 }
    );
    assert!(!session.eos);
    assert_eq!(session.packets.len(), 1);
    assert_eq!(
        session.packets.take(90),
        Some(PacketData { key: true, pts: 90, dts: 88, pos: 90000, duration: 1 })
    );
}

#[test]
fn a_packet_without_timestamp_is_fed_under_the_sentinel() {
    let (mut session, _consumer) = new_session();
    let p = Packet {
        payload_len: Some(0),
        pts: None,
        dts: None,
        key: false,
        position: 0,
        duration: 0,
    };
    assert_eq!(
        session.submit(Some(&p)),
        Submission::Feed { flags: 2, payload_size: 0, timestamp: -1 }
    );
    assert!(session.packets.contains(-1));
}

#[test]
fn no_packet_ends_the_stream() {
    let (mut session, _consumer) = new_session();
    assert_eq!(PACKET_TIMESTAMP, 2);
    assert_eq!(PACKET_ENDOFSTREAM, 1);
    assert_eq!(END_OF_STREAM_FLAGS, PACKET_TIMESTAMP | PACKET_ENDOFSTREAM);
    assert_eq!(session.submit(None), Submission::EndOfStream { flags: 3 });
    assert!(session.eos);
    assert!(session.packets.is_empty());
}

#[test]
fn a_packet_without_payload_ends_the_stream() {
    let (mut session, _consumer) = new_session();
    let mut p = packet(5);
    p.payload_len = None;
    assert_eq!(session.submit(Some(&p)), Submission::EndOfStream { flags: 3 });
    assert!(session.eos);
    assert!(session.packets.is_empty());
}

#[test]
fn submissions_after_end_of_stream_are_ignored() {
    let (mut session, _consumer) = new_session();
    session.submit(Some(&packet(1)));
    session.submit(None);
    assert_eq!(session.submit(Some(&packet(2))), Submission::Ignored);
    assert_eq!(session.submit(None), Submission::Ignored);
    assert!(session.eos);
    assert_eq!(session.packets.len(), 1);
    assert!(!session.packets.contains(2));
}

#[test]
fn map_requests() {
    assert_eq!(
        map_request(DisplayInfo {
            picture_index: 3,
            progressive_frame: 1,
            top_field_first: 1,
            repeat_first_field: 0,
            timestamp: 77,
        }),
        MapRequest {
            picture_index: 3,
            progressive_frame: 1,
            second_field: 1,
            top_field_first: 1,
            unpaired_field: false,
        }
    );
    let mut unpaired = info(0, 0);
    unpaired.repeat_first_field = -1;
    assert_eq!(map_request(unpaired).second_field, 0);
    assert!(map_request(unpaired).unpaired_field);
    let mut extreme = info(0, 0);
    extreme.repeat_first_field = i32::MAX;
    assert_eq!(map_request(extreme).second_field, 2147483648);
}

#[test]
fn display_step_table() {
    let shown = info(4, 9);
    for gone in [false, true] {
        assert_eq!(display_step(false, gone, None), DisplayStep::Skip);
        assert_eq!(display_step(false, gone, Some(shown)), DisplayStep::Skip);
    }
    assert_eq!(display_step(true, true, None), DisplayStep::Skip);
    assert_eq!(display_step(true, true, Some(shown)), DisplayStep::Skip);
    assert_eq!(display_step(true, false, None), DisplayStep::Close);
    assert_eq!(
        display_step(true, false, Some(shown)),
        DisplayStep::MapPicture(map_request(shown))
    );
}

#[test]
fn decode_status_classes() {
    assert_eq!(check_decode_status(8), Err(NVCodecError::DecodeError));
    assert_eq!(check_decode_status(9), Err(NVCodecError::DecodeError));
    for status in [0u32, 1, 2, 7, 10, u32::MAX] {
        assert_eq!(check_decode_status(status), Ok(()));
    }
}

#[test]
fn a_mapped_picture_is_unmapped_on_every_path() {
    assert_eq!(finish_mapped(Ok(()), 0), Ok(1));
    assert_eq!(finish_mapped(Ok(()), 206), Err(NVCodecError::CuError(206)));
    assert_eq!(finish_mapped(Err(NVCodecError::DecodeError), 0), Err(NVCodecError::DecodeError));
    assert_eq!(
        finish_mapped(Err(NVCodecError::DecodeError), 206),
        Err(NVCodecError::DecodeError)
    );
    assert_eq!(
        finish_mapped(Err(NVCodecError::CuError(2)), 206),
        Err(NVCodecError::CuError(2))
    );
}

#[test]
fn callback_outcomes() {
    assert_eq!(callback_outcome(0), Ok(1));
    assert_eq!(callback_outcome(205), Err(NVCodecError::CuError(205)));
}

#[test]
fn frame_layouts() {
    let mut n = Negotiator::new(None, None, false);
    assert_eq!(n.frame_layout(), Ok(FrameLayout { row_bytes: 0, rows: 0 }));
    let fmt = format_1080p();
    n.begin_sequence(&fmt, &caps()).unwrap();
    assert_eq!(n.frame_layout(), Ok(FrameLayout { row_bytes: 1920, rows: 1620 }));

    let mut deep = fmt;
    deep.chroma_format = 3;
    deep.bit_depth_luma_minus8 = 2;
    deep.bit_depth_chroma_minus8 = 2;
    let mut n = Negotiator::new(None, None, false);
    n.begin_sequence(&deep, &caps()).unwrap();
    assert_eq!(n.frame_layout(), Ok(FrameLayout { row_bytes: 3840, rows: 3240 }));
}

#[test]
fn frame_plan_precedence() {
    let mut n = Negotiator::new(None, None, false);
    n.begin_sequence(&format_1080p(), &caps()).unwrap();
    assert_eq!(n.frame_plan(0, 2), Ok(FrameLayout { row_bytes: 1920, rows: 1620 }));
    assert_eq!(n.frame_plan(0, 8), Err(NVCodecError::DecodeError));
    assert_eq!(n.frame_plan(0, 9), Err(NVCodecError::DecodeError));
    assert_eq!(n.frame_plan(400, 8), Err(NVCodecError::CuError(400)));
    n.width = -1;
    assert_eq!(n.frame_plan(0, 2), Err(NVCodecError::SurfaceShapeMismatch));
    assert_eq!(n.frame_plan(0, 9), Err(NVCodecError::DecodeError));
    assert_eq!(n.frame_plan(1, 2), Err(NVCodecError::CuError(1)));
}

#[test]
fn a_reversed_rectangle_has_no_layout() {
    let mut fmt = format_1080p();
    fmt.display_area = DisplayArea { top: 0, left: 1920, bottom: 1080, right: 0 };
    let mut n = Negotiator::new(None, None, false);
    n.begin_sequence(&fmt, &caps()).unwrap();
    assert_eq!(n.width, -1920);
    assert_eq!(n.frame_layout(), Err(NVCodecError::SurfaceShapeMismatch));

    let mut n = Negotiator::new(None, Some(Size { width: 640, height: -360 }), false);
    n.begin_sequence(&format_1080p(), &caps()).unwrap();
    assert_eq!(n.frame_layout(), Err(NVCodecError::SurfaceShapeMismatch));
}

#[test]
fn a_picture_before_any_decoder_is_refused() {
    let (mut session, consumer) = new_session();
    let ready = session.negotiator.picture_decode_ready();
    assert_eq!(ready, Err(NVCodecError::DecoderNotInitialized));
    let answer = session.producer.settle(ready.map(|_| 1));
    assert_eq!(answer, ABORT);
    match consumer.poll_next(&waker(), false) {
        Polled::Item(Err(e)) => assert_eq!(e, NVCodecError::DecoderNotInitialized),
        _ => panic!("the error was not delivered"),
    }
}

#[test]
fn a_picture_after_creation_is_accepted() {
    let (mut session, _consumer) = new_session();
    let fmt = format_1080p();
    let step = session.negotiator.begin_sequence(&fmt, &caps()).unwrap();
    assert_eq!(session.negotiator.picture_decode_ready(), Err(NVCodecError::DecoderNotInitialized));
    session.negotiator.complete_step(step, 0, &fmt, &caps()).unwrap();
    assert_eq!(session.negotiator.picture_decode_ready(), Ok(()));
}

#[test]
fn a_frame_takes_its_record_along() {
    let (mut session, consumer) = new_session();
    session.submit(Some(&packet(30)));
    session.submit(Some(&packet(31)));
    assert!(session.finish_display(vec![1, 2, 3], 30));
    assert!(!session.packets.contains(30));
    assert!(session.packets.contains(31));
    match consumer.poll_next(&waker(), false) {
        Polled::Item(Ok(frame)) => {
            assert_eq!(frame.buf, vec![1, 2, 3]);
            assert_eq!(
                frame.packet_data,
                Some(PacketData { key: true, pts: 30, dts: 28, pos: 30000, duration: 1 })
            );
        }
        _ => panic!("the frame was not delivered"),
    }
}

#[test]
fn a_frame_without_a_record_is_delivered_all_the_same() {
    let (mut session, consumer) = new_session();
    session.submit(Some(&packet(30)));
    assert!(session.finish_display(vec![9], 12345));
    assert_eq!(session.packets.len(), 1);
    match consumer.poll_next(&waker(), false) {
        Polled::Item(Ok(frame)) => assert_eq!(frame.packet_data, None),
        _ => panic!("the frame was not delivered"),
    }
}

#[test]
fn a_second_frame_under_the_same_timestamp_gets_no_record() {
    let (mut session, consumer) = new_session();
    session.submit(Some(&packet(8)));
    assert!(session.finish_display(vec![0], 8));
    assert!(session.finish_display(vec![1], 8));
    let w = waker();
    match consumer.poll_next(&w, false) {
        Polled::Item(Ok(frame)) => assert_eq!(frame.packet_data.map(|r| r.pts), Some(8)),
        _ => panic!("the frame was not delivered"),
    }
    match consumer.poll_next(&w, false) {
        Polled::Item(Ok(frame)) => assert_eq!(frame.packet_data, None),
        _ => panic!("the frame was not delivered"),
    }
}

#[test]
fn the_end_of_stream_call_closes_the_producer_once() {
    let (mut session, consumer) = new_session();
    session.submit(None);
    assert_eq!(session.begin_display(None), DisplayStep::Close);
    assert!(!session.producer.open());
    assert_eq!(session.begin_display(None), DisplayStep::Skip);
    assert_eq!(session.begin_display(Some(&info(0, 0))), DisplayStep::Skip);
    assert!(!session.finish_display(vec![], 0));
    assert!(matches!(consumer.poll_next(&waker(), session.eos), Polled::Finished));
}

#[test]
fn hundred_packets_then_end_of_stream() {
    let (mut session, consumer) = new_session();
    let fmt = format_1080p();
    let step = session.negotiator.begin_sequence(&fmt, &caps()).unwrap();
    let done = session.negotiator.complete_step(step, 0, &fmt, &caps());
    assert_eq!(done, Ok(SequenceStep::Done { surfaces: 9 }));

    for pts in 0..100i64 {
        assert!(matches!(session.submit(Some(&packet(pts))), Submission::Feed { .. }));
        // The parser holds one picture back before it shows it.
        if pts > 0 {
            assert_eq!(show(&mut session, (pts - 1) as i32 % 9, pts - 1), 1);
        }
    }
    assert_eq!(session.submit(None), Submission::EndOfStream { flags: 3 });
    assert_eq!(show(&mut session, 0, 99), 1);
    assert_eq!(session.begin_display(None), DisplayStep::Close);

    let w = waker();
    for pts in 0..100i64 {
        match consumer.poll_next(&w, session.eos) {
            Polled::Item(Ok(frame)) => {
                assert_eq!(frame.buf.len(), 1620);
                assert_eq!(frame.packet_data, Some(packet(pts).record()));
            }
            _ => panic!("frame {} is missing", pts),
        }
    }
    assert!(matches!(consumer.poll_next(&w, session.eos), Polled::Finished));
    assert!(matches!(consumer.poll_next(&w, session.eos), Polled::Finished));
    assert!(session.packets.is_empty());
}

#[test]
fn an_unsupported_stream_delivers_one_error_and_ends() {
    let (mut session, consumer) = new_session();
    let fmt = format_1080p();
    let mut poor = caps();
    poor.is_supported = false;

    assert!(matches!(session.submit(Some(&packet(0))), Submission::Feed { .. }));
    let outcome = match session.negotiator.begin_sequence(&fmt, &poor) {
        Ok(SequenceStep::Done { surfaces }) => Ok(surfaces),
        Ok(step) => panic!("unexpected step {:?}", step),
        Err(e) => Err(e),
    };
    assert_eq!(session.producer.settle(outcome), ABORT);
    assert!(!session.negotiator.decoder_live);
    assert_eq!(session.negotiator.video_fmt, None);

    assert_eq!(session.submit(None), Submission::EndOfStream { flags: 3 });
    assert_eq!(session.begin_display(None), DisplayStep::Close);

    let w = waker();
    match consumer.poll_next(&w, session.eos) {
        Polled::Item(Err(e)) => assert_eq!(
            e,
            NVCodecError::NotSupported("Codec 4 not supported for this GPU".to_string())
        ),
        _ => panic!("the error was not delivered"),
    }
    assert!(matches!(consumer.poll_next(&w, session.eos), Polled::Finished));
    assert!(matches!(consumer.poll_next(&w, session.eos), Polled::Finished));
}

#[test]
fn a_dropped_consumer_turns_display_calls_into_no_ops() {
    let (mut session, consumer) = new_session();
    let fmt = format_1080p();
    let step = session.negotiator.begin_sequence(&fmt, &caps()).unwrap();
    session.negotiator.complete_step(step, 0, &fmt, &caps()).unwrap();
    for pts in 0..100i64 {
        session.submit(Some(&packet(pts)));
    }
    for pts in 0..10i64 {
        let shown = info(pts as i32, pts);
        assert!(matches!(session.begin_display(Some(&shown)), DisplayStep::MapPicture(_)));
        assert!(session.finish_display(vec![0; 4], pts));
    }
    let w = waker();
    for _ in 0..10 {
        assert!(matches!(consumer.poll_next(&w, false), Polled::Item(Ok(_))));
    }
    drop(consumer);

    for pts in 10..100i64 {
        let shown = info(pts as i32, pts);
        assert_eq!(session.begin_display(Some(&shown)), DisplayStep::Skip);
    }
    assert_eq!(session.begin_display(None), DisplayStep::Skip);
    assert!(session.producer.open());
    assert_eq!(session.packets.len(), 90);
}

#[test]
fn teardown_order() {
    let (mut session, _consumer) = new_session();
    assert_eq!(session.teardown(), vec![Resource::Parser, Resource::Lock]);

    let (mut session, _consumer) = new_session();
    let fmt = format_1080p();
    let step = session.negotiator.begin_sequence(&fmt, &caps()).unwrap();
    session.negotiator.complete_step(step, 0, &fmt, &caps()).unwrap();
    assert_eq!(session.teardown(), vec![Resource::Parser, Resource::Decoder, Resource::Lock]);
    assert!(!session.negotiator.decoder_live);
    assert_eq!(session.teardown(), vec![Resource::Parser, Resource::Lock]);
}
