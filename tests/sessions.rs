use metrics_exporter_scope::client::{ClientAction, ClientEvent, ClientSession, Event};
use metrics_exporter_scope::server::{
    quantize, ServerSession, SessionAction, SessionEvent, INFO_INTERVAL_NS,
};
use metrics_exporter_scope::{ClientSettings, Packet, Snapshot};

const MS: u64 = 1_000_000;

#[test]
fn timestamps_round_down_to_interval() {
    assert_eq!(quantize(0, 10), 0);
    assert_eq!(quantize(25, 10), 20);
    assert_eq!(quantize(30, 10), 30);
    assert_eq!(quantize(9, 10), 0);
    assert_eq!(quantize(15 * MS + 123, 10 * MS), 10 * MS);
    assert_eq!(quantize(u64::MAX, 1), u64::MAX);
    assert_eq!(quantize(u64::MAX, u64::MAX), u64::MAX);
    assert_eq!(quantize(u64::MAX - 1, u64::MAX), 0);
}

#[test]
fn server_sends_info_then_snapshots() {
    let mut s = ServerSession::new();
    assert_eq!(
        s.step(SessionEvent::Settings(ClientSettings::new(u128::from(10 * MS)))),
        SessionAction::SendInfo
    );
    assert_eq!(s.step(SessionEvent::Tick { elapsed_ns: 10 * MS + 7 }), SessionAction::SendSnapshot { ts: 10 * MS });
    assert_eq!(s.step(SessionEvent::Tick { elapsed_ns: 29 * MS }), SessionAction::SendSnapshot { ts: 20 * MS });
    assert!(s.is_open());
}

#[test]
fn server_announces_info_every_five_seconds() {
    let mut s = ServerSession::new();
    s.step(SessionEvent::Settings(ClientSettings::new(u128::from(100 * MS))));
    assert_eq!(
        s.step(SessionEvent::Tick { elapsed_ns: INFO_INTERVAL_NS - 1 }),
        SessionAction::SendSnapshot { ts: 4_900 * MS }
    );
    assert_eq!(
        s.step(SessionEvent::Tick { elapsed_ns: INFO_INTERVAL_NS + 3 }),
        SessionAction::SendSnapshotThenInfo { ts: 5_000 * MS }
    );
    assert_eq!(
        s.step(SessionEvent::Tick { elapsed_ns: 2 * INFO_INTERVAL_NS }),
        SessionAction::SendSnapshot { ts: 10_000 * MS }
    );
    assert_eq!(
        s.step(SessionEvent::Tick { elapsed_ns: 2 * INFO_INTERVAL_NS + 3 }),
        SessionAction::SendSnapshotThenInfo { ts: 10_000 * MS }
    );
}

#[test]
fn server_closes_on_failure() {
    let mut s = ServerSession::new();
    assert_eq!(s.step(SessionEvent::Failed), SessionAction::Close);
    assert!(!s.is_open());
    assert_eq!(s.step(SessionEvent::Tick { elapsed_ns: 0 }), SessionAction::Close);

    let mut s = ServerSession::new();
    s.step(SessionEvent::Settings(ClientSettings::new(1)));
    assert_eq!(s.step(SessionEvent::Failed), SessionAction::Close);
    assert_eq!(s, ServerSession::Closed);
}

#[test]
fn server_refuses_zero_interval() {
    let mut s = ServerSession::new();
    assert_eq!(s.step(SessionEvent::Settings(ClientSettings::new(0))), SessionAction::Close);
    assert_eq!(s, ServerSession::Closed);
}

#[test]
fn client_handshake_then_packets() {
    let mut c = ClientSession::new();
    assert!(matches!(c.step(ClientEvent::Connected), ClientAction::ReadVersion));
    assert!(matches!(c.step(ClientEvent::Version(1)), ClientAction::SendSettings));
    assert!(matches!(c.step(ClientEvent::SettingsSent), ClientAction::Notify(Event::Connect)));
    let p = Packet::Snapshot(Snapshot::new(0, vec![("x".to_string(), 3.5f64.to_bits())]));
    match c.step(ClientEvent::Packet(p)) {
        ClientAction::Notify(Event::Packet(Packet::Snapshot(s))) => {
            assert_eq!(s.ts(), 0);
            assert_eq!(s.data(), &vec![("x".to_string(), 3.5f64.to_bits())]);
        }
        other => panic!("unexpected action {:?}", other),
    }
    assert_eq!(c, ClientSession::Streaming);
}

#[test]
fn client_refuses_other_version() {
    let mut c = ClientSession::new();
    c.step(ClientEvent::Connected);
    assert!(matches!(c.step(ClientEvent::Version(2)), ClientAction::Disconnect));
    assert_eq!(c, ClientSession::Waiting);
}

#[test]
fn client_waits_then_reconnects_once() {
    let mut c = ClientSession::new();
    c.step(ClientEvent::Connected);
    c.step(ClientEvent::Version(1));
    c.step(ClientEvent::SettingsSent);
    for t in 0..10u64 {
        let p = Packet::Snapshot(Snapshot::new(t * 10 * MS, Vec::new()));
        assert!(matches!(c.step(ClientEvent::Packet(p)), ClientAction::Notify(Event::Packet(_))));
    }
    assert!(matches!(c.step(ClientEvent::Failed), ClientAction::Disconnect));
    assert!(matches!(c.step(ClientEvent::Failed), ClientAction::Wait));
    assert!(matches!(c.step(ClientEvent::Connected), ClientAction::Wait));
    assert!(matches!(c.step(ClientEvent::DelayElapsed), ClientAction::Connect));
    assert_eq!(c, ClientSession::Connecting);
    assert!(matches!(c.step(ClientEvent::Failed), ClientAction::Disconnect));
    assert!(matches!(c.step(ClientEvent::DelayElapsed), ClientAction::Connect));
}

#[test]
fn client_stops_on_request() {
    let mut c = ClientSession::new();
    assert!(matches!(c.step(ClientEvent::Stop), ClientAction::Shutdown));
    assert!(c.is_stopped());
    assert!(matches!(c.step(ClientEvent::DelayElapsed), ClientAction::Wait));
    assert!(matches!(c.step(ClientEvent::Connected), ClientAction::Wait));
}
