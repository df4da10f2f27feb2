//! The registry of captured gauges. Only gauges whose name starts with the
//! marker are captured; the marker is stripped from the names that Info and
//! Snapshot packets show.
use vstd::prelude::*;

use metrics::{Gauge, Key};
use metrics_util::registry::{AtomicStorage, GenerationalStorage, Registry};
use std::sync::atomic::Ordering;

use crate::packet::{Info, MetricInfo, Snapshot};
use crate::pairs::{lemma_to_map_keys, lemma_to_map_last, pairs_view, to_map};

verus! {

/// The leading character that opts a gauge into capture.
pub const MARKER: char = '~';

/// The name starts with the marker.
pub open spec fn is_marked(name: Seq<char>) -> bool {
    name.len() > 0 && name[0] == MARKER
}

/// The name without its marker.
pub open spec fn strip_marker(name: Seq<char>) -> Seq<char> {
    name.drop_first()
}

/// Relies on str::strip_prefix with a char pattern: the text after `c` when
/// the text starts with `c`, and nothing otherwise.
#[verifier::external_body]
fn strip_char_prefix(s: &str, c: char) -> (r: Option<&str>)
    ensures
        match r {
            Some(rest) => s@.len() > 0 && s@[0] == c && rest@ == s@.drop_first(),
            None => !(s@.len() > 0 && s@[0] == c),
        },
{
    s.strip_prefix(c)
}

/// The name under which a gauge is exported: its name without the marker,
/// for a marked name, and nothing for any other.
pub fn exported_name(name: &str) -> (r: Option<String>)
    ensures
        r.is_some() == is_marked(name@),
        r.is_some() ==> r.unwrap()@ == strip_marker(name@),
{
    match strip_char_prefix(name, MARKER) {
        Some(rest) => Some(rest.to_owned()),
        None => None,
    }
}

/// The name opts its gauge into capture.
pub fn is_captured(name: &str) -> (r: bool)
    ensures
        r == is_marked(name@),
{
    strip_char_prefix(name, MARKER).is_some()
}

/// One registered gauge as read from the registry: its name, its labels and
/// the bit pattern of its 64-bit float value.
#[derive(Clone, Debug)]
pub struct GaugeEntry {
    pub name: String,
    pub labels: Vec<(String, String)>,
    pub value: u64,
}

/// The Info pairs of the marked entries, in order.
pub open spec fn info_pairs(es: Seq<GaugeEntry>) -> Seq<(Seq<char>, Map<Seq<char>, Seq<char>>)>
    decreases es.len(),
{
    if es.len() == 0 {
        Seq::empty()
    } else {
        let rest = info_pairs(es.drop_last());
        let e = es.last();
        if is_marked(e.name@) {
            rest.push((strip_marker(e.name@), to_map(pairs_view(e.labels@))))
        } else {
            rest
        }
    }
}

/// The value pairs of the marked entries, in order.
pub open spec fn value_pairs(es: Seq<GaugeEntry>) -> Seq<(Seq<char>, u64)>
    decreases es.len(),
{
    if es.len() == 0 {
        Seq::empty()
    } else {
        let rest = value_pairs(es.drop_last());
        let e = es.last();
        if is_marked(e.name@) {
            rest.push((strip_marker(e.name@), e.value))
        } else {
            rest
        }
    }
}

/// The Info that the entries describe: each marked entry's exported name
/// with its labels (for two entries of one name, the later one).
pub open spec fn info_model(es: Seq<GaugeEntry>) -> Map<Seq<char>, Map<Seq<char>, Seq<char>>> {
    to_map(info_pairs(es))
}

/// The Snapshot data that the entries describe: each marked entry's exported
/// name with its value (for two entries of one name, the later one).
pub open spec fn values_model(es: Seq<GaugeEntry>) -> Map<Seq<char>, u64> {
    to_map(value_pairs(es))
}

/// The Info packet that describes the entries.
pub fn info_of(entries: Vec<GaugeEntry>) -> (r: Info)
    ensures
        r.wf(),
        r@ == info_model(entries@),
{
    let ghost es = entries@;
    let mut acc: Vec<(String, MetricInfo)> = Vec::new();
    for e in it: entries
        invariant
            it.seq() == es,
            pairs_view(acc@) == info_pairs(es.subrange(0, it.index() as int)),
    {
        let ghost i = it.index() as int;
        proof {
            assert(es.subrange(0, i + 1).drop_last() =~= es.subrange(0, i));
            assert(es.subrange(0, i + 1).last() == e);
        }
        let GaugeEntry { name, labels, value: _ } = e;
        match exported_name(name.as_str()) {
            Some(n) => {
                let mi = MetricInfo::new(labels);
                acc.push((n, mi));
                assert(pairs_view(acc@) =~= info_pairs(es.subrange(0, i + 1)));
            },
            None => {},
        }
    }
    assert(es.subrange(0, es.len() as int) =~= es);
    Info::new(acc)
}

/// The Snapshot at `t` of the entries' values.
pub fn snapshot_of(t: u64, entries: Vec<GaugeEntry>) -> (r: Snapshot)
    ensures
        r.wf(),
        r.spec_ts() == t,
        r.spec_data() == values_model(entries@),
{
    let ghost es = entries@;
    let mut acc: Vec<(String, u64)> = Vec::new();
    for e in it: entries
        invariant
            it.seq() == es,
            pairs_view(acc@) == value_pairs(es.subrange(0, it.index() as int)),
    {
        let ghost i = it.index() as int;
        proof {
            assert(es.subrange(0, i + 1).drop_last() =~= es.subrange(0, i));
            assert(es.subrange(0, i + 1).last() == e);
        }
        match exported_name(e.name.as_str()) {
            Some(n) => {
                acc.push((n, e.value));
                assert(pairs_view(acc@) =~= value_pairs(es.subrange(0, i + 1)));
            },
            None => {},
        }
    }
    assert(es.subrange(0, es.len() as int) =~= es);
    Snapshot::new(t, acc)
}

/// Every entry is of a captured gauge.
pub open spec fn all_marked(es: Seq<GaugeEntry>) -> bool {
    forall|i: int| 0 <= i < es.len() ==> is_marked(#[trigger] es[i].name@)
}

/// With every entry marked, the Info pairs are the entries one for one.
proof fn lemma_info_pairs_of_marked(es: Seq<GaugeEntry>)
    requires
        all_marked(es),
    ensures
        info_pairs(es).len() == es.len(),
        forall|i: int|
            0 <= i < es.len() ==> #[trigger] info_pairs(es)[i] == (
                strip_marker(es[i].name@),
                to_map(pairs_view(es[i].labels@)),
            ),
    decreases es.len(),
{
    if es.len() > 0 {
        let t = es.drop_last();
        assert forall|i: int| 0 <= i < t.len() implies is_marked(#[trigger] t[i].name@) by {
            assert(t[i] == es[i]);
        }
        lemma_info_pairs_of_marked(t);
        assert(is_marked(es[es.len() - 1].name@));
        assert forall|i: int| 0 <= i < es.len() implies #[trigger] info_pairs(es)[i] == (
            strip_marker(es[i].name@),
            to_map(pairs_view(es[i].labels@)),
        ) by {
            if i < t.len() {
                assert(t[i] == es[i]);
            }
        }
    }
}

/// With every entry marked, the value pairs are the entries one for one.
proof fn lemma_value_pairs_of_marked(es: Seq<GaugeEntry>)
    requires
        all_marked(es),
    ensures
        value_pairs(es).len() == es.len(),
        forall|i: int|
            0 <= i < es.len() ==> #[trigger] value_pairs(es)[i] == (
                strip_marker(es[i].name@),
                es[i].value,
            ),
    decreases es.len(),
{
    if es.len() > 0 {
        let t = es.drop_last();
        assert forall|i: int| 0 <= i < t.len() implies is_marked(#[trigger] t[i].name@) by {
            assert(t[i] == es[i]);
        }
        lemma_value_pairs_of_marked(t);
        assert(is_marked(es[es.len() - 1].name@));
        assert forall|i: int| 0 <= i < es.len() implies #[trigger] value_pairs(es)[i] == (
            strip_marker(es[i].name@),
            es[i].value,
        ) by {
            if i < t.len() {
                assert(t[i] == es[i]);
            }
        }
    }
}

/// After gauges with marked names are registered, the Info lists exactly
/// their names, marker stripped, and no others; each with the labels of its
/// gauge (of the last one, where two gauges share a name).
pub proof fn lemma_info_lists_registered(es: Seq<GaugeEntry>)
    requires
        all_marked(es),
    ensures
        forall|i: int|
            0 <= i < es.len() ==> info_model(es).contains_key(
                #[trigger] strip_marker(es[i].name@),
            ),
        forall|k: Seq<char>|
            info_model(es).contains_key(k) ==> exists|i: int|
                0 <= i < es.len() && strip_marker(es[i].name@) == k,
        forall|i: int|
            0 <= i < es.len() && (forall|j: int|
                i < j < es.len() ==> strip_marker(es[j].name@) != strip_marker(es[i].name@))
                ==> info_model(es)[#[trigger] strip_marker(es[i].name@)] == to_map(
                pairs_view(es[i].labels@),
            ),
{
    let s = info_pairs(es);
    lemma_info_pairs_of_marked(es);
    lemma_to_map_keys(s);
    assert forall|i: int| 0 <= i < es.len() implies info_model(es).contains_key(
        #[trigger] strip_marker(es[i].name@),
    ) by {
        assert(s[i].0 == strip_marker(es[i].name@));
    }
    assert forall|k: Seq<char>| info_model(es).contains_key(k) implies exists|i: int|
        0 <= i < es.len() && strip_marker(es[i].name@) == k by {
        let i = choose|i: int| 0 <= i < s.len() && s[i].0 == k;
        assert(s[i].0 == strip_marker(es[i].name@));
    }
    assert forall|i: int|
        0 <= i < es.len() && (forall|j: int|
            i < j < es.len() ==> strip_marker(es[j].name@) != strip_marker(es[i].name@))
            implies info_model(es)[#[trigger] strip_marker(es[i].name@)] == to_map(
            pairs_view(es[i].labels@),
        ) by {
        assert forall|j: int| i < j < s.len() implies s[j].0 != s[i].0 by {
            assert(s[j].0 == strip_marker(es[j].name@));
        }
        lemma_to_map_last(s, i);
    }
}

/// The snapshot reflects the value of every registered gauge as it was
/// read: each name, marker stripped, maps to the value of its gauge (of the
/// last one, where two gauges share a name), and no other name appears.
pub proof fn lemma_snapshot_reflects_values(es: Seq<GaugeEntry>)
    requires
        all_marked(es),
    ensures
        forall|k: Seq<char>|
            values_model(es).contains_key(k) <==> exists|i: int|
                0 <= i < es.len() && strip_marker(es[i].name@) == k,
        forall|i: int|
            0 <= i < es.len() && (forall|j: int|
                i < j < es.len() ==> strip_marker(es[j].name@) != strip_marker(es[i].name@))
                ==> values_model(es)[#[trigger] strip_marker(es[i].name@)] == es[i].value,
{
    let s = value_pairs(es);
    lemma_value_pairs_of_marked(es);
    lemma_to_map_keys(s);
    assert forall|k: Seq<char>| values_model(es).contains_key(k) <==> exists|i: int|
        0 <= i < es.len() && strip_marker(es[i].name@) == k by {
        if values_model(es).contains_key(k) {
            let i = choose|i: int| 0 <= i < s.len() && s[i].0 == k;
            assert(s[i].0 == strip_marker(es[i].name@));
        }
        if exists|i: int| 0 <= i < es.len() && strip_marker(es[i].name@) == k {
            let i = choose|i: int| 0 <= i < es.len() && strip_marker(es[i].name@) == k;
            assert(s[i].0 == k);
        }
    }
    assert forall|i: int|
        0 <= i < es.len() && (forall|j: int|
            i < j < es.len() ==> strip_marker(es[j].name@) != strip_marker(es[i].name@))
            implies values_model(es)[#[trigger] strip_marker(es[i].name@)] == es[i].value by {
        assert forall|j: int| i < j < s.len() implies s[j].0 != s[i].0 by {
            assert(s[j].0 == strip_marker(es[j].name@));
        }
        lemma_to_map_last(s, i);
    }
}

#[verifier::external_type_specification]
#[verifier::external_body]
pub struct ExKey(Key);

#[verifier::external_type_specification]
#[verifier::external_body]
pub struct ExGauge(Gauge);

/// The shared store of captured gauges. Gauge handles that it gives out
/// write their values into it without locking. The store is metrics_util's
/// registry, which Verus cannot declare (its type parameter is bound by a
/// trait of that crate), so the struct is opaque.
#[verifier::external_body]
pub struct GaugeRegistry {
    registry: Registry<Key, GenerationalStorage<AtomicStorage>>,
}

/// Relies on metrics_util's Registry::get_gauge_handles, a point-in-time
/// copy of the registered gauges, each read with one atomic load. The order
/// of the entries, and which values they hold while writers run, depend on
/// the hash map and on timing, so nothing is promised of them.
#[verifier::external_body]
fn gauge_entries(registry: &GaugeRegistry) -> Vec<GaugeEntry> {
    registry.registry.get_gauge_handles().into_iter().map(|(key, gauge)| GaugeEntry {
        name: key.name().to_owned(),
        labels: key.labels().map(|l| (l.key().to_owned(), l.value().to_owned())).collect(),
        value: gauge.get_inner().load(Ordering::Acquire),
    }).collect()
}

impl GaugeRegistry {
    /// Relies on metrics_util's Registry::new over generational atomic
    /// storage: an empty registry.
    #[verifier::external_body]
    pub fn new() -> Self {
        GaugeRegistry { registry: Registry::new(GenerationalStorage::new(AtomicStorage)) }
    }

    /// Relies on metrics_util's Registry::get_or_create_gauge: the handle of
    /// the gauge registered under `key`, registered now if it was not.
    #[verifier::external_body]
    pub fn get_or_create_gauge(&self, key: &Key) -> Gauge {
        self.registry.get_or_create_gauge(key, |c| c.clone().into())
    }

    /// The Info packet of the gauges registered now.
    pub fn info(&self) -> (r: Info)
        ensures
            r.wf(),
            exists|es: Seq<GaugeEntry>| r@ == info_model(es),
    {
        let entries = gauge_entries(self);
        info_of(entries)
    }

    /// The Snapshot at `t` of the gauges registered now.
    pub fn snapshot(&self, t: u64) -> (r: Snapshot)
        ensures
            r.wf(),
            r.spec_ts() == t,
            exists|es: Seq<GaugeEntry>| r.spec_data() == values_model(es),
    {
        let entries = gauge_entries(self);
        snapshot_of(t, entries)
    }
}

} // verus!
