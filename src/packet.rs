//! The values that travel over the wire: the client's settings, and the two
//! data packets, Info (which metrics exist, with their labels) and Snapshot
//! (the value of each metric at one instant).
use vstd::prelude::*;

use crate::pairs::{collect_pairs, keys_distinct, pairs_view, to_map};

verus! {

/// What a client asks of the server after the handshake: the sampling
/// interval, in nanoseconds.
#[derive(Clone, Copy, Debug, PartialEq, Eq, Structural)]
pub struct ClientSettings {
    sampling_interval: u64,
}

impl ClientSettings {
    /// The sampling interval, in nanoseconds.
    pub closed spec fn interval_ns(&self) -> u64 {
        self.sampling_interval
    }

    /// Settings for a sampling interval of `sampling_interval_ns`
    /// nanoseconds, which must fit in 64 bits.
    pub fn new(sampling_interval_ns: u128) -> (r: Self)
        requires
            sampling_interval_ns <= u64::MAX,
        ensures
            r.interval_ns() == sampling_interval_ns,
    {
        ClientSettings { sampling_interval: sampling_interval_ns as u64 }
    }

    /// The sampling interval, in nanoseconds.
    pub fn sampling_interval(&self) -> (r: u64)
        ensures
            r == self.interval_ns(),
    {
        self.sampling_interval
    }
}

/// The labels of one metric.
#[derive(Clone, Debug)]
pub struct MetricInfo {
    labels: Vec<(String, String)>,
}

impl View for MetricInfo {
    type V = Map<Seq<char>, Seq<char>>;

    closed spec fn view(&self) -> Map<Seq<char>, Seq<char>> {
        to_map(pairs_view(self.labels@))
    }
}

impl MetricInfo {
    /// Each label key occurs once.
    pub closed spec fn wf(&self) -> bool {
        keys_distinct(pairs_view(self.labels@))
    }

    /// The labels given as key/value pairs; a later pair for a key wins.
    pub fn new(labels: Vec<(String, String)>) -> (r: Self)
        ensures
            r.wf(),
            r@ == to_map(pairs_view(labels@)),
    {
        MetricInfo { labels: collect_pairs(labels) }
    }

    /// The labels, one pair per key.
    pub fn labels(&self) -> (r: &Vec<(String, String)>)
        ensures
            to_map(pairs_view(r@)) == self@,
            self.wf() ==> keys_distinct(pairs_view(r@)),
    {
        &self.labels
    }
}

/// The Info packet: each known metric's name with its labels.
#[derive(Clone, Debug)]
pub struct Info {
    metrics: Vec<(String, MetricInfo)>,
}

impl View for Info {
    type V = Map<Seq<char>, Map<Seq<char>, Seq<char>>>;

    closed spec fn view(&self) -> Map<Seq<char>, Map<Seq<char>, Seq<char>>> {
        to_map(pairs_view(self.metrics@))
    }
}

impl Info {
    /// Each metric name occurs once.
    pub closed spec fn wf(&self) -> bool {
        keys_distinct(pairs_view(self.metrics@))
    }

    /// The metrics given as name/labels pairs; a later pair for a name wins.
    pub fn new(metrics: Vec<(String, MetricInfo)>) -> (r: Self)
        ensures
            r.wf(),
            r@ == to_map(pairs_view(metrics@)),
    {
        Info { metrics: collect_pairs(metrics) }
    }

    /// The metrics, one pair per name.
    pub fn metrics(&self) -> (r: &Vec<(String, MetricInfo)>)
        ensures
            to_map(pairs_view(r@)) == self@,
            self.wf() ==> keys_distinct(pairs_view(r@)),
    {
        &self.metrics
    }
}

/// The Snapshot packet: a timestamp in nanoseconds since the session
/// started, and each metric's value as the bit pattern of a 64-bit float.
#[derive(Clone, Debug)]
pub struct Snapshot {
    t: u64,
    d: Vec<(String, u64)>,
}

impl Snapshot {
    /// The timestamp, in nanoseconds since the session started.
    pub closed spec fn spec_ts(&self) -> u64 {
        self.t
    }

    /// Each metric's value, by name.
    pub closed spec fn spec_data(&self) -> Map<Seq<char>, u64> {
        to_map(pairs_view(self.d@))
    }

    /// Each metric name occurs once.
    pub closed spec fn wf(&self) -> bool {
        keys_distinct(pairs_view(self.d@))
    }

    /// A snapshot at `t` of the values given as name/value pairs; a later
    /// pair for a name wins.
    pub fn new(t: u64, data: Vec<(String, u64)>) -> (r: Self)
        ensures
            r.wf(),
            r.spec_ts() == t,
            r.spec_data() == to_map(pairs_view(data@)),
    {
        Snapshot { t, d: collect_pairs(data) }
    }

    /// The timestamp, in nanoseconds since the session started.
    pub fn ts(&self) -> (r: u64)
        ensures
            r == self.spec_ts(),
    {
        self.t
    }

    /// The values, one pair per name.
    pub fn data(&self) -> (r: &Vec<(String, u64)>)
        ensures
            to_map(pairs_view(r@)) == self.spec_data(),
            self.wf() ==> keys_distinct(pairs_view(r@)),
    {
        &self.d
    }

    /// Takes the values out, leaving the snapshot without any.
    pub fn take_data(&mut self) -> (r: Vec<(String, u64)>)
        ensures
            to_map(pairs_view(r@)) == old(self).spec_data(),
            old(self).wf() ==> keys_distinct(pairs_view(r@)),
            final(self).spec_ts() == old(self).spec_ts(),
            final(self).spec_data() == Map::<Seq<char>, u64>::empty(),
            final(self).wf(),
    {
        let d = self.d.split_off(0);
        assert(d@ =~= old(self).d@);
        assert(pairs_view(self.d@) =~= Seq::<(Seq<char>, u64)>::empty());
        d
    }
}

/// A data packet: Info or Snapshot.
#[derive(Clone, Debug)]
pub enum Packet {
    /// Which metrics exist, with their labels.
    Info(Info),
    /// The value of each metric at one instant.
    Snapshot(Snapshot),
}

} // verus!
