//! Whole runs of a session: what a sequence of steps adds up to.
//!
//! The operations of a session each state one step. The functions here put
//! the steps of a run one after the other, with the channel's answers given
//! along, and the lemmas say what holds of the run as a whole.

use vstd::prelude::*;
use crate::delivery::{spec_offer, DecodedFrame, Delivery, Offer};
use crate::error::NVCodecError;
use crate::packet::{
    keyed_by_timestamp, lemma_attached_run, lemma_attached_run_len, lemma_pending_after,
    spec_attached_run, spec_first_shown, spec_pending_after, Packet, PacketData,
};
use crate::session::spec_frame;

verus! {

/// The producer after a run of offers.
pub open spec fn spec_offers<B>(open: bool, log: Seq<Delivery<B>>, offers: Seq<Offer<B>>) -> (
    bool,
    Seq<Delivery<B>>,
)
    decreases offers.len(),
{
    if offers.len() == 0 {
        (open, log)
    } else {
        let before = spec_offers(open, log, offers.drop_last());
        spec_offer(before.0, before.1, offers.last())
    }
}

/// Whether an offer is that of an error.
pub open spec fn spec_is_failure<B>(offer: Offer<B>) -> bool {
    offer matches Offer::Item { item, .. } && item is Err
}

/// Whether a run ends its output at the first failure: once an error has
/// been offered, nothing but the end follows. This is what a parser does
/// that stops calling back after a callback has answered with the abort
/// sentinel.
pub open spec fn spec_stops_at_failure<B>(offers: Seq<Offer<B>>) -> bool {
    forall|i: int, j: int|
        0 <= i < j < offers.len() && spec_is_failure(#[trigger] offers[i]) ==> #[trigger] offers[j]
            is End
}

/// Whether a log holds no error but, at most, as its last item.
pub open spec fn spec_error_only_last<B>(log: Seq<Delivery<B>>) -> bool {
    forall|k: int| 0 <= k < log.len() && #[trigger] log[k] is Err ==> k == log.len() - 1
}

/// Whether a log holds no error at all.
pub open spec fn spec_all_frames<B>(log: Seq<Delivery<B>>) -> bool {
    forall|k: int| 0 <= k < log.len() ==> #[trigger] log[k] is Ok
}

/// A run without failures adds no error to the log, and a run never makes
/// the log shorter or reopens the producer.
pub proof fn lemma_offers_without_failure<B>(
    open: bool,
    log: Seq<Delivery<B>>,
    offers: Seq<Offer<B>>,
)
    requires
        spec_all_frames(log),
        forall|i: int| 0 <= i < offers.len() ==> !spec_is_failure(#[trigger] offers[i]),
    ensures
        spec_all_frames(spec_offers(open, log, offers).1),
    decreases offers.len(),
{
    if offers.len() > 0 {
        let earlier = offers.drop_last();
        assert forall|i: int| 0 <= i < earlier.len() implies !spec_is_failure(
            #[trigger] earlier[i],
        ) by {
            assert(earlier[i] == offers[i]);
        }
        lemma_offers_without_failure(open, log, earlier);
        assert(!spec_is_failure(offers[offers.len() - 1]));
    }
}

/// At most one terminal error: in a run that ends its output at the first
/// failure, on a producer that has delivered frames only, whatever the
/// channel answers, the queue takes frames and then at most one error, and
/// that error is the last item it ever takes.
pub proof fn lemma_error_is_terminal<B>(open: bool, log: Seq<Delivery<B>>, offers: Seq<Offer<B>>)
    requires
        spec_all_frames(log),
        spec_stops_at_failure(offers),
    ensures
        spec_error_only_last(spec_offers(open, log, offers).1),
    decreases offers.len(),
{
    if offers.len() > 0 {
        let earlier = offers.drop_last();
        let last = offers.last();
        assert forall|i: int, j: int|
            0 <= i < j < earlier.len() && spec_is_failure(#[trigger] earlier[i]) implies (
        #[trigger] earlier[j]) is End by {
            assert(earlier[i] == offers[i]);
            assert(earlier[j] == offers[j]);
        }
        lemma_error_is_terminal(open, log, earlier);
        if last is Item {
            assert forall|i: int| 0 <= i < earlier.len() implies !spec_is_failure(
                #[trigger] earlier[i],
            ) by {
                assert(earlier[i] == offers[i]);
                assert(offers[offers.len() - 1] == last);
                if spec_is_failure(offers[i]) {
                    assert(offers[offers.len() - 1] is End);
                }
            }
            lemma_offers_without_failure(open, log, earlier);
        }
    }
}

/// Nothing after termination: a closed producer stays closed, and the queue
/// takes nothing more from it, whatever is offered.
pub proof fn lemma_closed_producer_is_silent<B>(log: Seq<Delivery<B>>, offers: Seq<Offer<B>>)
    ensures
        spec_offers(false, log, offers) == (false, log),
    decreases offers.len(),
{
    if offers.len() > 0 {
        lemma_closed_producer_is_silent(log, offers.drop_last());
    }
}

/// The pending records after the packets of `packets` were submitted one
/// after the other, each with a payload and before the end of the stream.
pub open spec fn spec_submit_all(records: Map<i64, PacketData>, packets: Seq<Packet>) -> Map<
    i64,
    PacketData,
>
    decreases packets.len(),
{
    if packets.len() == 0 {
        records
    } else {
        spec_submit_all(records, packets.drop_last()).insert(
            packets.last().spec_timestamp(),
            packets.last().spec_record(),
        )
    }
}

/// The timestamps of a sequence of packets.
pub open spec fn spec_timestamps(packets: Seq<Packet>) -> Seq<i64> {
    Seq::new(packets.len(), |i: int| packets[i].spec_timestamp())
}

/// What the queue takes when the pictures copied into `bufs` are shown one
/// after the other under `timestamps`, with the producer open and the
/// channel taking every frame, starting from the pending records
/// `records`.
pub open spec fn spec_show_all<B>(
    records: Map<i64, PacketData>,
    bufs: Seq<B>,
    timestamps: Seq<i64>,
) -> Seq<Delivery<B>>
    decreases timestamps.len(),
{
    if timestamps.len() == 0 {
        Seq::empty()
    } else {
        seq![spec_frame(bufs[0], records, timestamps[0])] + spec_show_all(
            records.remove(timestamps[0]),
            bufs.skip(1),
            timestamps.skip(1),
        )
    }
}

/// Whether no two packets of a sequence share a timestamp.
pub open spec fn spec_distinct_timestamps(packets: Seq<Packet>) -> bool {
    forall|i: int, j: int|
        0 <= i < j < packets.len() ==> (#[trigger] packets[i]).spec_timestamp() != (
        #[trigger] packets[j]).spec_timestamp()
}

/// After packets with timestamps of their own were submitted to an empty
/// table, each has its record pending under its timestamp, and nothing
/// else is pending.
pub proof fn lemma_submit_all(packets: Seq<Packet>)
    requires
        spec_distinct_timestamps(packets),
    ensures
        keyed_by_timestamp(spec_submit_all(Map::empty(), packets)),
        forall|i: int|
            0 <= i < packets.len() ==> {
                &&& spec_submit_all(Map::empty(), packets).contains_key(
                    (#[trigger] packets[i]).spec_timestamp(),
                )
                &&& spec_submit_all(Map::empty(), packets)[packets[i].spec_timestamp()]
                    == packets[i].spec_record()
            },
        forall|t: i64| #[trigger]
            spec_submit_all(Map::empty(), packets).contains_key(t) ==> exists|i: int|
                0 <= i < packets.len() && (#[trigger] packets[i]).spec_timestamp() == t,
    decreases packets.len(),
{
    if packets.len() > 0 {
        let earlier = packets.drop_last();
        assert forall|i: int, j: int| 0 <= i < j < earlier.len() implies (
        #[trigger] earlier[i]).spec_timestamp() != (#[trigger] earlier[j]).spec_timestamp() by {
            assert(earlier[i] == packets[i]);
            assert(earlier[j] == packets[j]);
        }
        lemma_submit_all(earlier);
        let before = spec_submit_all(Map::empty(), earlier);
        let after = spec_submit_all(Map::empty(), packets);
        let last = packets.last();
        assert(after == before.insert(last.spec_timestamp(), last.spec_record()));
        assert forall|i: int| 0 <= i < packets.len() implies {
            &&& after.contains_key((#[trigger] packets[i]).spec_timestamp())
            &&& after[packets[i].spec_timestamp()] == packets[i].spec_record()
        } by {
            if i < packets.len() - 1 {
                assert(earlier[i] == packets[i]);
                assert(packets[i].spec_timestamp() != packets[packets.len() - 1].spec_timestamp());
            }
        }
        assert forall|t: i64| #[trigger] after.contains_key(t) implies exists|i: int|
            0 <= i < packets.len() && (#[trigger] packets[i]).spec_timestamp() == t by {
            if t == last.spec_timestamp() {
                assert(packets[packets.len() - 1].spec_timestamp() == t);
            } else {
                assert(before.contains_key(t));
                let i = choose|i: int|
                    0 <= i < earlier.len() && (#[trigger] earlier[i]).spec_timestamp() == t;
                assert(earlier[i] == packets[i]);
            }
        }
    }
}

/// The frames of a run carry what `spec_attached_run` gives: the `i`-th
/// frame holds the `i`-th buffer and the record that goes with the `i`-th
/// timestamp.
pub proof fn lemma_show_all<B>(
    records: Map<i64, PacketData>,
    bufs: Seq<B>,
    timestamps: Seq<i64>,
    i: int,
)
    requires
        bufs.len() == timestamps.len(),
        0 <= i < timestamps.len(),
    ensures
        spec_show_all(records, bufs, timestamps).len() == timestamps.len(),
        spec_show_all(records, bufs, timestamps)[i] == Ok::<DecodedFrame<B>, NVCodecError>(
            DecodedFrame { buf: bufs[i], packet_data: spec_attached_run(records, timestamps)[i] },
        ),
    decreases timestamps.len(),
{
    lemma_show_all_len(records, bufs, timestamps);
    lemma_attached_run_len(records, timestamps);
    if i > 0 {
        let fewer = records.remove(timestamps[0]);
        lemma_show_all(fewer, bufs.skip(1), timestamps.skip(1), i - 1);
        lemma_show_all_len(fewer, bufs.skip(1), timestamps.skip(1));
        lemma_attached_run_len(fewer, timestamps.skip(1));
        assert(bufs.skip(1)[i - 1] == bufs[i]);
    }
}

/// A run yields one frame per picture.
pub proof fn lemma_show_all_len<B>(
    records: Map<i64, PacketData>,
    bufs: Seq<B>,
    timestamps: Seq<i64>,
)
    ensures
        spec_show_all(records, bufs, timestamps).len() == timestamps.len(),
    decreases timestamps.len(),
{
    if timestamps.len() > 0 {
        lemma_show_all_len(records.remove(timestamps[0]), bufs.skip(1), timestamps.skip(1));
    }
}

/// Every packet comes back with its frame, in order: when packets with
/// timestamps of their own are submitted to a new session and their
/// pictures are then shown in the order of submission, each under its
/// packet's timestamp, with the channel taking every frame, then the queue
/// takes exactly one frame per packet, the `i`-th frame holds the `i`-th
/// buffer and the record of the `i`-th packet, and no record is left
/// pending.
pub proof fn lemma_every_packet_comes_back<B>(packets: Seq<Packet>, bufs: Seq<B>, i: int)
    requires
        spec_distinct_timestamps(packets),
        bufs.len() == packets.len(),
        0 <= i < packets.len(),
    ensures
        ({
            let records = spec_submit_all(Map::empty(), packets);
            let timestamps = spec_timestamps(packets);
            let frames = spec_show_all(records, bufs, timestamps);
            &&& frames.len() == packets.len()
            &&& frames[i] == Ok::<DecodedFrame<B>, NVCodecError>(
                DecodedFrame { buf: bufs[i], packet_data: Some(packets[i].spec_record()) },
            )
            &&& spec_pending_after(records, timestamps) == Map::<i64, PacketData>::empty()
        }),
{
    let records = spec_submit_all(Map::empty(), packets);
    let timestamps = spec_timestamps(packets);
    lemma_submit_all(packets);
    lemma_show_all(records, bufs, timestamps, i);
    lemma_attached_run(records, timestamps, i);
    assert(timestamps[i] == packets[i].spec_timestamp());
    assert(spec_first_shown(timestamps, i)) by {
        assert forall|j: int| 0 <= j < i implies #[trigger] timestamps[j] != timestamps[i] by {
            assert(packets[j].spec_timestamp() != packets[i].spec_timestamp());
        }
    }
    lemma_pending_after(records, timestamps);
    assert(records.dom().subset_of(timestamps.to_set())) by {
        assert forall|t: i64| records.dom().contains(t) implies timestamps.to_set().contains(
            t,
        ) by {
            assert(records.contains_key(t));
            let k = choose|k: int|
                0 <= k < packets.len() && (#[trigger] packets[k]).spec_timestamp() == t;
            assert(timestamps[k] == t);
        }
    }
}

} // verus!
