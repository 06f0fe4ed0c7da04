//! The decode session: the negotiator, the side-table of submitted
//! packets, the end-of-stream mark and the producing end of the delivery
//! queue, with the operations that touch more than one of them.

use vstd::prelude::*;
use crate::codec::CuVideoCodecType;
use crate::delivery::{delivery_channel, Consumer, DecodedFrame, Delivery, Producer};
use crate::display::{display_step, spec_display_step, DisplayInfo, DisplayStep};
use crate::format::{DisplayArea, Size};
use crate::negotiate::Negotiator;
use crate::packet::{spec_attached, Packet, PacketData, PacketTable};

verus! {

/// Packet flag: the packet ends the stream.
pub const PACKET_ENDOFSTREAM: u64 = 1;

/// Packet flag: the packet carries a timestamp.
pub const PACKET_TIMESTAMP: u64 = 2;

/// Flags of the packet that ends the stream: both flags together.
pub const END_OF_STREAM_FLAGS: u64 = 3;

/// The flags of the packet that ends the stream are the two packet flags
/// combined.
pub proof fn lemma_end_of_stream_flags()
    ensures
        END_OF_STREAM_FLAGS == PACKET_TIMESTAMP | PACKET_ENDOFSTREAM,
{
    assert(3u64 == 2u64 | 1u64) by (bit_vector);
}

/// How a parser is set up for a session.
#[derive(Clone, Copy, Debug, PartialEq, Eq, Structural)]
pub struct ParserConfig {
    /// Device code of the codec to parse.
    pub codec_type: u32,
    /// Decode surfaces until the first format is negotiated.
    pub max_num_decode_surfaces: u32,
    /// Pictures the parser may hold back before display.
    pub max_display_delay: u32,
}

/// The parser setup for a codec: one decode surface to start with, and a
/// display delay of one picture.
pub fn parser_config(codec: CuVideoCodecType) -> (config: ParserConfig)
    ensures
        config == (ParserConfig {
            codec_type: codec.spec_code(),
            max_num_decode_surfaces: 1,
            max_display_delay: 1,
        }),
{
    ParserConfig { codec_type: codec.code(), max_num_decode_surfaces: 1, max_display_delay: 1 }
}

/// What is handed to the parser for a submission.
#[derive(Clone, Copy, Debug, PartialEq, Eq, Structural)]
pub enum Submission {
    /// Feed the packet's payload under this timestamp.
    Feed { flags: u64, payload_size: usize, timestamp: i64 },
    /// Signal the end of the stream.
    EndOfStream { flags: u64 },
    /// Nothing: the stream has ended already.
    Ignored,
}

/// A native resource of a session.
#[derive(Clone, Copy, Debug, PartialEq, Eq, Structural)]
pub enum Resource {
    Parser,
    Decoder,
    Lock,
}

/// The resources to release at teardown, in order: the parser, then the
/// decoder if there is one, then the context lock.
pub open spec fn spec_teardown_order(decoder_live: bool) -> Seq<Resource> {
    if decoder_live {
        seq![Resource::Parser, Resource::Decoder, Resource::Lock]
    } else {
        seq![Resource::Parser, Resource::Lock]
    }
}

/// What a submission hands to the parser.
/// - After end-of-stream, nothing.
/// - A packet with a payload is fed under its timestamp.
/// - No packet, or a packet without payload, ends the stream.
pub open spec fn spec_submission(eos: bool, packet: Option<Packet>) -> Submission {
    if eos {
        Submission::Ignored
    } else {
        match packet {
            Some(packet) => match packet.payload_len {
                Some(len) => Submission::Feed {
                    flags: PACKET_TIMESTAMP,
                    payload_size: len,
                    timestamp: packet.spec_timestamp(),
                },
                None => Submission::EndOfStream { flags: END_OF_STREAM_FLAGS },
            },
            None => Submission::EndOfStream { flags: END_OF_STREAM_FLAGS },
        }
    }
}

/// The delivery of a picture that was copied into `buf` and is shown under
/// `timestamp`: the frame of that buffer, with the record pending under
/// the timestamp where there is one.
pub open spec fn spec_frame<B>(
    buf: B,
    records: Map<i64, PacketData>,
    timestamp: i64,
) -> Delivery<B> {
    Ok(DecodedFrame { buf, packet_data: spec_attached(records, timestamp) })
}

/// The state of one decode session.
#[verifier::reject_recursive_types(B)]
pub struct DecodeSession<B> {
    /// The sequence negotiator.
    pub negotiator: Negotiator,
    /// Records of the submitted packets whose frames are still to come.
    pub packets: PacketTable,
    /// Whether end-of-stream has been submitted.
    pub eos: bool,
    /// The producing end of the delivery queue.
    pub producer: Producer<B>,
}

impl<B> DecodeSession<B> {
    /// A new session and the consuming end of its delivery queue. Nothing
    /// has been negotiated, submitted or delivered.
    pub fn new(crop: Option<DisplayArea>, target_size: Option<Size>, keyframe_only: bool) -> (r: (
        DecodeSession<B>,
        Consumer<B>,
    ))
        ensures
            r.0.negotiator == Negotiator::spec_new(crop, target_size, keyframe_only),
            r.0.packets@ == Map::<i64, PacketData>::empty(),
            !r.0.eos,
            r.0.producer.is_open(),
            r.0.producer.delivered() == Seq::<Delivery<B>>::empty(),
            r.0.producer.wake_count() == 0,
    {
        let (producer, consumer) = delivery_channel();
        let session = DecodeSession {
            negotiator: Negotiator::new(crop, target_size, keyframe_only),
            packets: PacketTable::new(),
            eos: false,
            producer,
        };
        (session, consumer)
    }

    /// Takes a submission and says what to hand to the parser. A packet
    /// with a payload is remembered under its timestamp; no packet, or one
    /// without payload, marks the end of the stream; and once the stream
    /// has ended, every submission is ignored.
    pub fn submit(&mut self, packet: Option<&Packet>) -> (submission: Submission)
        ensures
            submission == spec_submission(
                old(self).eos,
                match packet {
                    Some(p) => Some(*p),
                    None => None,
                },
            ),
            final(self).eos == (old(self).eos || !(submission is Feed)),
            final(self).packets@ == (match submission {
                Submission::Feed { .. } => old(self).packets@.insert(
                    packet.unwrap().spec_timestamp(),
                    packet.unwrap().spec_record(),
                ),
                _ => old(self).packets@,
            }),
            final(self).negotiator == old(self).negotiator,
            final(self).producer == old(self).producer,
    {
        if self.eos {
            return Submission::Ignored;
        }
        match packet {
            Some(packet) => match packet.payload_len {
                Some(len) => {
                    let timestamp = packet.timestamp();
                    self.packets.insert(packet.record());
                    return Submission::Feed {
                        flags: PACKET_TIMESTAMP,
                        payload_size: len,
                        timestamp,
                    };
                },
                None => {},
            },
            None => {},
        }
        self.eos = true;
        Submission::EndOfStream { flags: END_OF_STREAM_FLAGS }
    }

    /// Opens the dispatch of a display call.
    /// - With the producer closed, the call is skipped.
    /// - With the consumer gone, which is for the channel to say, the call
    ///   is skipped too, whatever it announces.
    /// - Otherwise a call without a picture announces the end of the
    ///   stream: the producer is closed and the consumer woken, so that it
    ///   sees the end of the sequence; and a call with a picture names the
    ///   picture to map.
    /// A skipped call and a call that maps change nothing.
    pub fn begin_display(&mut self, info: Option<&DisplayInfo>) -> (step: DisplayStep)
        ensures
            final(self).negotiator == old(self).negotiator,
            final(self).packets == old(self).packets,
            final(self).eos == old(self).eos,
            final(self).producer.delivered() == old(self).producer.delivered(),
            ({
                let info = match info {
                    Some(i) => Some(*i),
                    None => None,
                };
                ||| step == spec_display_step(old(self).producer.is_open(), false, info)
                ||| step == spec_display_step(old(self).producer.is_open(), true, info)
            }),
            final(self).producer.is_open() == (old(self).producer.is_open() && step
                != DisplayStep::Close),
            final(self).producer.wake_count() == (if step == DisplayStep::Close {
                old(self).producer.wake_count() + 1
            } else {
                old(self).producer.wake_count()
            }),
    {
        let open = self.producer.open();
        let gone = self.producer.abandoned();
        let info = match info {
            Some(i) => Some(*i),
            None => None,
        };
        let step = display_step(open, gone, info);
        match step {
            DisplayStep::Close => {
                self.producer.close();
            },
            _ => {},
        }
        step
    }

    /// Ends the dispatch of a display call: the picture has been copied
    /// into `buf`. The record pending under the picture's timestamp, if
    /// any, leaves the table and goes with the frame, which is offered to
    /// the queue. With the producer closed, nothing happens.
    pub fn finish_display(&mut self, buf: B, timestamp: i64) -> (taken: bool)
        ensures
            final(self).negotiator == old(self).negotiator,
            final(self).eos == old(self).eos,
            final(self).producer.is_open() == old(self).producer.is_open(),
            final(self).packets@ == (if old(self).producer.is_open() {
                old(self).packets@.remove(timestamp)
            } else {
                old(self).packets@
            }),
            taken ==> old(self).producer.is_open(),
            final(self).producer.delivered() == (if taken {
                old(self).producer.delivered().push(
                    spec_frame(buf, old(self).packets@, timestamp),
                )
            } else {
                old(self).producer.delivered()
            }),
            final(self).producer.wake_count() == (if taken {
                old(self).producer.wake_count() + 1
            } else {
                old(self).producer.wake_count()
            }),
    {
        if !self.producer.open() {
            return false;
        }
        let packet_data = self.packets.take(timestamp);
        self.producer.deliver(Ok(DecodedFrame { buf, packet_data }))
    }

    /// Ends the session: names the resources to release, in order, and
    /// leaves the session without a decoder.
    pub fn teardown(&mut self) -> (order: Vec<Resource>)
        ensures
            order@ == spec_teardown_order(old(self).negotiator.decoder_live),
            final(self).negotiator == (Negotiator {
                decoder_live: false,
                ..old(self).negotiator
            }),
            final(self).packets == old(self).packets,
            final(self).eos == old(self).eos,
            final(self).producer == old(self).producer,
    {
        let mut order: Vec<Resource> = Vec::new();
        order.push(Resource::Parser);
        if self.negotiator.decoder_live {
            order.push(Resource::Decoder);
        }
        order.push(Resource::Lock);
        self.negotiator.decoder_live = false;
        assert(order@ =~= spec_teardown_order(old(self).negotiator.decoder_live));
        order
    }
}

} // verus!
