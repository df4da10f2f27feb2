use metrics::{Key, Label};
use metrics_exporter_scope::recorder::{route_delegated, route_gauge, Route};
use metrics_exporter_scope::registry::{
    exported_name, info_of, is_captured, snapshot_of, GaugeEntry, GaugeRegistry,
};

fn entry(name: &str, labels: &[(&str, &str)], value: f64) -> GaugeEntry {
    GaugeEntry {
        name: name.to_string(),
        labels: labels.iter().map(|(k, v)| (k.to_string(), v.to_string())).collect(),
        value: value.to_bits(),
    }
}

#[test]
fn marker_is_stripped_from_exported_names() {
    assert_eq!(exported_name("~x"), Some("x".to_string()));
    assert_eq!(exported_name("~"), Some(String::new()));
    assert_eq!(exported_name("~~a"), Some("~a".to_string()));
    assert_eq!(exported_name("y"), None);
    assert_eq!(exported_name(""), None);
    assert_eq!(exported_name("a~"), None);
    assert!(is_captured("~i%1000"));
    assert!(!is_captured("iteration"));
}

#[test]
fn info_lists_marked_entries_only() {
    let info = info_of(vec![
        entry("~x", &[("plot", "foo")], 1.0),
        entry("iteration", &[], 2.0),
        entry("~y", &[], 3.0),
    ]);
    let mut names: Vec<&str> = info.metrics().iter().map(|(n, _)| n.as_str()).collect();
    names.sort();
    assert_eq!(names, vec!["x", "y"]);
    let x = info.metrics().iter().find(|(n, _)| n == "x").unwrap();
    assert_eq!(x.1.labels(), &vec![("plot".to_string(), "foo".to_string())]);
}

#[test]
fn snapshot_holds_values_by_name() {
    let s = snapshot_of(30, vec![entry("~x", &[], 3.5), entry("~y", &[], -1.0), entry("z", &[], 7.0)]);
    assert_eq!(s.ts(), 30);
    let mut d = s.data().clone();
    d.sort();
    assert_eq!(d, vec![("x".to_string(), 3.5f64.to_bits()), ("y".to_string(), (-1.0f64).to_bits())]);
}

#[test]
fn same_name_keeps_last_entry() {
    let s = snapshot_of(0, vec![entry("~x", &[("a", "1")], 1.0), entry("~x", &[("a", "2")], 2.0)]);
    assert_eq!(s.data(), &vec![("x".to_string(), 2.0f64.to_bits())]);
    let info = info_of(vec![entry("~x", &[("a", "1")], 1.0), entry("~x", &[("a", "2")], 2.0)]);
    assert_eq!(info.metrics().len(), 1);
    assert_eq!(info.metrics()[0].1.labels(), &vec![("a".to_string(), "2".to_string())]);
}

#[test]
fn empty_registry_gives_empty_packets() {
    let registry = GaugeRegistry::new();
    assert!(registry.info().metrics().is_empty());
    let s = registry.snapshot(0);
    assert_eq!(s.ts(), 0);
    assert!(s.data().is_empty());
}

#[test]
fn registered_gauge_appears_in_info_and_snapshot() {
    let registry = GaugeRegistry::new();
    let key = Key::from_parts("~x", vec![Label::new("plot", "foo")]);
    registry.get_or_create_gauge(&key).set(3.5);
    let info = registry.info();
    assert_eq!(info.metrics().len(), 1);
    assert_eq!(info.metrics()[0].0, "x");
    assert_eq!(info.metrics()[0].1.labels(), &vec![("plot".to_string(), "foo".to_string())]);
    let s = registry.snapshot(0);
    assert_eq!(s.ts(), 0);
    assert_eq!(s.data(), &vec![("x".to_string(), 3.5f64.to_bits())]);
}

#[test]
fn snapshot_reflects_latest_write() {
    let registry = GaugeRegistry::new();
    let gauge = registry.get_or_create_gauge(&Key::from_name("~g"));
    for v in [1.0, -2.25, 1e300, 0.0] {
        gauge.set(v);
        assert_eq!(registry.snapshot(5).data(), &vec![("g".to_string(), f64::to_bits(v))]);
    }
    gauge.increment(1.5);
    assert_eq!(registry.snapshot(5).data(), &vec![("g".to_string(), 1.5f64.to_bits())]);
}

#[test]
fn registering_again_returns_same_storage() {
    let registry = GaugeRegistry::new();
    let key = Key::from_name("~g");
    registry.get_or_create_gauge(&key).set(4.0);
    registry.get_or_create_gauge(&key).increment(1.0);
    assert_eq!(registry.snapshot(0).data(), &vec![("g".to_string(), 5.0f64.to_bits())]);
}

#[test]
fn infos_list_every_marked_registration() {
    let registry = GaugeRegistry::new();
    for name in ["~a", "~b", "~c"] {
        registry.get_or_create_gauge(&Key::from_parts(name, vec![Label::new("n", name)]));
    }
    let info = registry.info();
    let mut got: Vec<(String, Vec<(String, String)>)> =
        info.metrics().iter().map(|(n, m)| (n.clone(), m.labels().clone())).collect();
    got.sort();
    assert_eq!(
        got,
        vec![
            ("a".to_string(), vec![("n".to_string(), "~a".to_string())]),
            ("b".to_string(), vec![("n".to_string(), "~b".to_string())]),
            ("c".to_string(), vec![("n".to_string(), "~c".to_string())]),
        ]
    );
}

#[test]
fn gauges_are_routed_by_marker() {
    assert_eq!(route_gauge("~x", false), Route::Registry);
    assert_eq!(route_gauge("~x", true), Route::Registry);
    assert_eq!(route_gauge("y", true), Route::Fallback);
    assert_eq!(route_gauge("y", false), Route::Noop);
    assert_eq!(route_delegated(true), Route::Fallback);
    assert_eq!(route_delegated(false), Route::Noop);
}

#[test]
fn unmarked_gauge_never_reaches_registry() {
    let registry = GaugeRegistry::new();
    let key = Key::from_name("y");
    let mut fallback_writes = Vec::new();
    for v in [1.0, 2.0, 3.0] {
        match route_gauge(key.name(), true) {
            Route::Registry => registry.get_or_create_gauge(&key).set(v),
            Route::Fallback => fallback_writes.push(v),
            Route::Noop => {}
        }
    }
    assert_eq!(fallback_writes, vec![1.0, 2.0, 3.0]);
    assert!(registry.info().metrics().is_empty());
    assert!(registry.snapshot(0).data().is_empty());
}
