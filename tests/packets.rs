use metrics_exporter_scope::{ClientSettings, Info, MetricInfo, Snapshot};

fn labels(pairs: &[(&str, &str)]) -> Vec<(String, String)> {
    pairs.iter().map(|(k, v)| (k.to_string(), v.to_string())).collect()
}

#[test]
fn client_settings_keep_interval() {
    let s = ClientSettings::new(10_000_000);
    assert_eq!(s.sampling_interval(), 10_000_000);
    assert_eq!(ClientSettings::new(u128::from(u64::MAX)).sampling_interval(), u64::MAX);
}

#[test]
fn later_label_wins() {
    let mi = MetricInfo::new(labels(&[("plot", "a"), ("color", "red"), ("plot", "b")]));
    let mut got = mi.labels().clone();
    got.sort();
    assert_eq!(got, labels(&[("color", "red"), ("plot", "b")]));
}

#[test]
fn info_has_one_entry_per_name() {
    let a = MetricInfo::new(labels(&[("plot", "a")]));
    let b = MetricInfo::new(labels(&[("plot", "b")]));
    let info = Info::new(vec![("x".to_string(), a), ("x".to_string(), b)]);
    assert_eq!(info.metrics().len(), 1);
    assert_eq!(info.metrics()[0].0, "x");
    assert_eq!(info.metrics()[0].1.labels(), &labels(&[("plot", "b")]));
}

#[test]
fn empty_info_and_snapshot() {
    assert!(Info::new(Vec::new()).metrics().is_empty());
    let s = Snapshot::new(0, Vec::new());
    assert_eq!(s.ts(), 0);
    assert!(s.data().is_empty());
}

#[test]
fn snapshot_take_data_empties_it() {
    let mut s = Snapshot::new(
        20,
        vec![("x".to_string(), 3.5f64.to_bits()), ("y".to_string(), 1.0f64.to_bits())],
    );
    assert_eq!(s.ts(), 20);
    let d = s.take_data();
    assert_eq!(d.len(), 2);
    assert!(d.contains(&("x".to_string(), 3.5f64.to_bits())));
    assert!(s.data().is_empty());
    assert_eq!(s.ts(), 20);
}
