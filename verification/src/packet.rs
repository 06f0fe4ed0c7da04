//! Submitted packets and the side-table that correlates them with frames.

use std::collections::HashMap;
use vstd::prelude::*;

verus! {

broadcast use vstd::std_specs::hash::group_hash_axioms;

/// Timestamp under which a packet without a presentation timestamp is kept.
pub const NO_TIMESTAMP: i64 = -1;

/// What is remembered of a submitted packet until its frame is displayed.
#[derive(Clone, Copy, Debug, PartialEq, Eq, Structural)]
pub struct PacketData {
    /// Whether the packet holds a keyframe.
    pub key: bool,
    /// Presentation timestamp, `NO_TIMESTAMP` where the packet had none.
    pub pts: i64,
    /// Decode timestamp, `NO_TIMESTAMP` where the packet had none.
    pub dts: i64,
    /// Byte offset of the packet in its source.
    pub pos: isize,
    /// Duration of the packet.
    pub duration: i64,
}

/// A packet as the bitstream source hands it over, without its bytes.
#[derive(Clone, Copy, Debug, PartialEq, Eq, Structural)]
pub struct Packet {
    /// Length of the payload in bytes, `None` for a packet without payload.
    pub payload_len: Option<usize>,
    /// Presentation timestamp, if the source gave one.
    pub pts: Option<i64>,
    /// Decode timestamp, if the source gave one.
    pub dts: Option<i64>,
    /// Whether the packet holds a keyframe.
    pub key: bool,
    /// Byte offset of the packet in its source.
    pub position: isize,
    /// Duration of the packet.
    pub duration: i64,
}

impl Packet {
    /// The timestamp the packet is submitted and remembered under.
    pub open spec fn spec_timestamp(self) -> i64 {
        match self.pts {
            Some(pts) => pts,
            None => NO_TIMESTAMP,
        }
    }

    /// The record kept for the packet.
    pub open spec fn spec_record(self) -> PacketData {
        PacketData {
            key: self.key,
            pts: self.spec_timestamp(),
            dts: match self.dts {
                Some(dts) => dts,
                None => NO_TIMESTAMP,
            },
            pos: self.position,
            duration: self.duration,
        }
    }

    #[verifier::when_used_as_spec(spec_timestamp)]
    pub fn timestamp(self) -> (t: i64)
        ensures
            t == self.spec_timestamp(),
    {
        match self.pts {
            Some(pts) => pts,
            None => NO_TIMESTAMP,
        }
    }

    #[verifier::when_used_as_spec(spec_record)]
    pub fn record(self) -> (r: PacketData)
        ensures
            r == self.spec_record(),
    {
        PacketData {
            key: self.key,
            pts: self.timestamp(),
            dts: match self.dts {
                Some(dts) => dts,
                None => NO_TIMESTAMP,
            },
            pos: self.position,
            duration: self.duration,
        }
    }
}

/// Every record of `records` sits under its own presentation timestamp.
pub open spec fn keyed_by_timestamp(records: Map<i64, PacketData>) -> bool {
    forall|t: i64| #[trigger] records.contains_key(t) ==> records[t].pts == t
}

/// The record that goes with a frame shown under `timestamp`: the one
/// pending under that timestamp, if there is one.
pub open spec fn spec_attached(records: Map<i64, PacketData>, timestamp: i64) -> Option<
    PacketData,
> {
    if records.contains_key(timestamp) {
        Some(records[timestamp])
    } else {
        None
    }
}

/// The pending records, keyed by presentation timestamp. Every record sits
/// under its own timestamp, so a timestamp has at most one record pending;
/// the type keeps that invariant by itself.
pub struct PacketTable {
    records: HashMap<i64, PacketData>,
}

impl View for PacketTable {
    type V = Map<i64, PacketData>;

    closed spec fn view(&self) -> Map<i64, PacketData> {
        self.records@
    }
}

impl PacketTable {
    #[verifier::type_invariant]
    spec fn keyed(self) -> bool {
        keyed_by_timestamp(self.records@)
    }

    /// An empty table.
    pub fn new() -> (table: PacketTable)
        ensures
            table@ == Map::<i64, PacketData>::empty(),
    {
        PacketTable { records: HashMap::new() }
    }

    /// Remembers `record` under its presentation timestamp. A record that
    /// was pending under the same timestamp is dropped.
    pub fn insert(&mut self, record: PacketData)
        ensures
            final(self)@ == old(self)@.insert(record.pts, record),
            keyed_by_timestamp(final(self)@),
    {
        proof {
            use_type_invariant(&*self);
        }
        // The map is moved out and put back whole, so that the table is
        // never seen in the middle of a change.
        let mut table = PacketTable::new();
        std::mem::swap(self, &mut table);
        let mut records = table.records;
        records.insert(record.pts, record);
        *self = PacketTable { records };
    }

    /// Takes the record pending under `timestamp` out of the table. What
    /// comes out carries the timestamp it was asked for.
    pub fn take(&mut self, timestamp: i64) -> (record: Option<PacketData>)
        ensures
            final(self)@ == old(self)@.remove(timestamp),
            record == spec_attached(old(self)@, timestamp),
            keyed_by_timestamp(old(self)@),
            keyed_by_timestamp(final(self)@),
    {
        proof {
            use_type_invariant(&*self);
        }
        let mut table = PacketTable::new();
        std::mem::swap(self, &mut table);
        let mut records = table.records;
        let record = records.remove(&timestamp);
        *self = PacketTable { records };
        record
    }

    /// Whether a record is pending under `timestamp`.
    pub fn contains(&self, timestamp: i64) -> (b: bool)
        ensures
            b == self@.contains_key(timestamp),
    {
        self.records.contains_key(&timestamp)
    }

    /// Number of pending records.
    pub fn len(&self) -> (n: usize)
        ensures
            n == self@.len(),
    {
        self.records.len()
    }

    /// Whether no record is pending.
    pub fn is_empty(&self) -> (b: bool)
        ensures
            b == (self@ == Map::<i64, PacketData>::empty()),
    {
        let n = self.records.len();
        proof {
            if n == 0 {
                assert(self@.dom() =~= Set::<i64>::empty());
                assert(self@ =~= Map::<i64, PacketData>::empty());
            }
        }
        n == 0
    }
}

/// Inserting keeps the table keyed, and replaces what was pending under
/// the same timestamp: at most one record is pending per timestamp.
pub proof fn lemma_insert_replaces(records: Map<i64, PacketData>, record: PacketData)
    requires
        keyed_by_timestamp(records),
    ensures
        keyed_by_timestamp(records.insert(record.pts, record)),
        records.insert(record.pts, record)[record.pts] == record,
        records.insert(record.pts, record).dom() == records.dom().insert(record.pts),
{
}

/// What goes with the frames that are shown one after the other under
/// `timestamps`, starting from the pending records `records`: each frame
/// takes the record under its timestamp out of the table.
pub open spec fn spec_attached_run(records: Map<i64, PacketData>, timestamps: Seq<i64>) -> Seq<
    Option<PacketData>,
>
    decreases timestamps.len(),
{
    if timestamps.len() == 0 {
        Seq::empty()
    } else {
        seq![spec_attached(records, timestamps[0])] + spec_attached_run(
            records.remove(timestamps[0]),
            timestamps.skip(1),
        )
    }
}

/// The records still pending after frames were shown under `timestamps`.
pub open spec fn spec_pending_after(records: Map<i64, PacketData>, timestamps: Seq<i64>) -> Map<
    i64,
    PacketData,
>
    decreases timestamps.len(),
{
    if timestamps.len() == 0 {
        records
    } else {
        spec_pending_after(records.remove(timestamps[0]), timestamps.skip(1))
    }
}

/// Whether the `i`-th frame of a run is the first one shown under its
/// timestamp.
pub open spec fn spec_first_shown(timestamps: Seq<i64>, i: int) -> bool {
    forall|j: int| 0 <= j < i ==> #[trigger] timestamps[j] != timestamps[i]
}

/// Which record a frame gets: the `i`-th frame of a run gets the record
/// that was pending under its timestamp, provided it is the first frame of
/// the run shown under that timestamp, and nothing otherwise. So a record
/// goes to one frame at most, and it goes to a frame with the record's own
/// timestamp.
pub proof fn lemma_attached_run(records: Map<i64, PacketData>, timestamps: Seq<i64>, i: int)
    requires
        0 <= i < timestamps.len(),
    ensures
        spec_attached_run(records, timestamps).len() == timestamps.len(),
        spec_attached_run(records, timestamps)[i] == (if records.contains_key(timestamps[i])
            && spec_first_shown(timestamps, i) {
            Some(records[timestamps[i]])
        } else {
            None
        }),
        keyed_by_timestamp(records) && spec_attached_run(records, timestamps)[i].is_some()
            ==> spec_attached_run(records, timestamps)[i].unwrap().pts == timestamps[i],
    decreases timestamps.len(),
{
    lemma_attached_run_len(records, timestamps);
    if i > 0 {
        let rest = timestamps.skip(1);
        let fewer = records.remove(timestamps[0]);
        lemma_attached_run(fewer, rest, i - 1);
        lemma_attached_run_len(fewer, rest);
        assert(rest[i - 1] == timestamps[i]);
        if timestamps[0] != timestamps[i] && spec_first_shown(rest, i - 1) {
            assert forall|j: int| 0 <= j < i implies #[trigger] timestamps[j] != timestamps[i] by {
                if j > 0 {
                    assert(rest[j - 1] == timestamps[j]);
                }
            }
        }
        if spec_first_shown(timestamps, i) {
            assert(timestamps[0] != timestamps[i]);
            assert forall|j: int| 0 <= j < i - 1 implies #[trigger] rest[j] != rest[i - 1] by {
                assert(rest[j] == timestamps[j + 1]);
            }
        }
    }
}

/// A run yields one entry per frame.
pub proof fn lemma_attached_run_len(records: Map<i64, PacketData>, timestamps: Seq<i64>)
    ensures
        spec_attached_run(records, timestamps).len() == timestamps.len(),
    decreases timestamps.len(),
{
    if timestamps.len() > 0 {
        lemma_attached_run_len(records.remove(timestamps[0]), timestamps.skip(1));
    }
}

/// Frames come in display order with their own records: where the frames
/// of a run are shown under timestamps that never decrease, the timestamps
/// of the records that go with them never decrease either.
pub proof fn lemma_attached_run_ordered(
    records: Map<i64, PacketData>,
    timestamps: Seq<i64>,
    i: int,
    j: int,
)
    requires
        keyed_by_timestamp(records),
        forall|a: int, b: int| 0 <= a <= b < timestamps.len() ==> timestamps[a] <= timestamps[b],
        0 <= i <= j < timestamps.len(),
        spec_attached_run(records, timestamps)[i].is_some(),
        spec_attached_run(records, timestamps)[j].is_some(),
    ensures
        spec_attached_run(records, timestamps)[i].unwrap().pts <= spec_attached_run(
            records,
            timestamps,
        )[j].unwrap().pts,
{
    lemma_attached_run(records, timestamps, i);
    lemma_attached_run(records, timestamps, j);
}

/// What a run leaves pending: exactly the records under timestamps that no
/// frame of the run was shown under. So the table is empty after a run
/// that showed a frame for every pending record.
pub proof fn lemma_pending_after(records: Map<i64, PacketData>, timestamps: Seq<i64>)
    ensures
        spec_pending_after(records, timestamps) == records.remove_keys(timestamps.to_set()),
        records.dom().subset_of(timestamps.to_set()) ==> spec_pending_after(records, timestamps)
            == Map::<i64, PacketData>::empty(),
    decreases timestamps.len(),
{
    if timestamps.len() == 0 {
        assert(timestamps.to_set() =~= Set::<i64>::empty());
        assert(records.remove_keys(timestamps.to_set()) =~= records);
    } else {
        let rest = timestamps.skip(1);
        let fewer = records.remove(timestamps[0]);
        lemma_pending_after(fewer, rest);
        assert forall|t: i64| timestamps.to_set().contains(t) <==> (t == timestamps[0]
            || rest.to_set().contains(t)) by {
            if timestamps.to_set().contains(t) {
                let k = choose|k: int| 0 <= k < timestamps.len() && timestamps[k] == t;
                if k > 0 {
                    assert(rest[k - 1] == t);
                }
            }
            if rest.to_set().contains(t) {
                let k = choose|k: int| 0 <= k < rest.len() && rest[k] == t;
                assert(timestamps[k + 1] == t);
            }
            if t == timestamps[0] {
                assert(timestamps[0] == t);
            }
        }
        assert(fewer.remove_keys(rest.to_set()) =~= records.remove_keys(timestamps.to_set()));
    }
    if records.dom().subset_of(timestamps.to_set()) {
        assert(records.remove_keys(timestamps.to_set()) =~= Map::<i64, PacketData>::empty());
    }
}

} // verus!
