//! The decisions of one server session: the handshake, then a snapshot on
//! every tick, stamped with the elapsed time rounded down to a multiple of
//! the sampling interval, and a fresh Info packet every few seconds.
use vstd::prelude::*;

use crate::packet::ClientSettings;

verus! {

/// How long, in seconds, the handshake may wait on the peer.
pub const HANDSHAKE_TIMEOUT_SECS: u64 = 60;

/// How often, in nanoseconds, a streaming session announces the metrics
/// again, so that its client learns of metrics registered since it connected.
pub const INFO_INTERVAL_NS: u64 = 5_000_000_000;

/// The elapsed time `e` rounded down to a multiple of the interval `i`.
pub open spec fn quantized(e: u64, i: u64) -> u64
    recommends
        i > 0,
{
    ((e / i) * i) as u64
}

/// The timestamp of a snapshot taken `elapsed_ns` after the session started,
/// for a sampling interval of `interval_ns`.
pub fn quantize(elapsed_ns: u64, interval_ns: u64) -> (r: u64)
    requires
        interval_ns > 0,
    ensures
        r as int == (elapsed_ns as int / interval_ns as int) * interval_ns as int,
        r == quantized(elapsed_ns, interval_ns),
        r <= elapsed_ns,
{
    let q = elapsed_ns / interval_ns;
    assert(q * interval_ns <= elapsed_ns) by (nonlinear_arith)
        requires
            q == elapsed_ns / interval_ns,
            interval_ns > 0,
    ;
    q * interval_ns
}

/// Timestamps are multiples of the interval and never go back as the
/// elapsed time grows.
pub proof fn lemma_quantized_monotone(e1: u64, e2: u64, i: u64)
    requires
        i > 0,
        e1 <= e2,
    ensures
        quantized(e1, i) <= quantized(e2, i),
        quantized(e1, i) % i == 0,
        quantized(e1, i) <= e1,
        e1 < quantized(e1, i) + i,
{
    let q1 = e1 / i;
    let q2 = e2 / i;
    assert(q1 <= q2) by (nonlinear_arith)
        requires
            q1 == e1 / i,
            q2 == e2 / i,
            e1 <= e2,
            i > 0,
    ;
    assert(q1 * i <= q2 * i) by (nonlinear_arith)
        requires
            q1 <= q2,
            i > 0,
    ;
    assert(q1 * i <= e1 && e1 < q1 * i + i) by (nonlinear_arith)
        requires
            q1 == e1 / i,
            i > 0,
    ;
    assert(q2 * i <= e2) by (nonlinear_arith)
        requires
            q2 == e2 / i,
            i > 0,
    ;
    assert((q1 * i) % (i as int) == 0) by (nonlinear_arith)
        requires
            i > 0,
    {
        vstd::arithmetic::div_mod::lemma_mod_multiples_basic(q1 as int, i as int);
    }
}

/// The state of one server session.
#[derive(Clone, Copy, Debug, PartialEq, Eq, Structural)]
pub enum ServerSession {
    /// The version cell is sent; the client's settings are awaited.
    Handshaking,
    /// Snapshots are sent every `interval_ns`; the last Info packet went out
    /// `last_info_ns` after the session started.
    Streaming { interval_ns: u64, last_info_ns: u64 },
    /// The session is over.
    Closed,
}

/// What happened to a session.
#[derive(Clone, Copy, Debug)]
pub enum SessionEvent {
    /// The client's settings arrived.
    Settings(ClientSettings),
    /// The tick of the interval, `elapsed_ns` after the session started.
    Tick { elapsed_ns: u64 },
    /// A read or a write on the connection failed.
    Failed,
}

/// What the session does next.
#[derive(Clone, Copy, Debug, PartialEq, Eq, Structural)]
pub enum SessionAction {
    /// Send the Info packet of the registry, and start the clock.
    SendInfo,
    /// Send the Snapshot packet of the registry, stamped `ts`.
    SendSnapshot { ts: u64 },
    /// Send the Snapshot packet, stamped `ts`, then the Info packet.
    SendSnapshotThenInfo { ts: u64 },
    /// Close the connection.
    Close,
}

/// The action is a data packet of either kind.
pub open spec fn sends_data(a: SessionAction) -> bool {
    a != SessionAction::Close
}

/// The action sends a Snapshot packet.
pub open spec fn sends_snapshot(a: SessionAction) -> bool {
    a is SendSnapshot || a is SendSnapshotThenInfo
}

/// The next state of the session and its action, on an event.
pub open spec fn server_step(s: ServerSession, ev: SessionEvent) -> (ServerSession, SessionAction) {
    match s {
        ServerSession::Handshaking => match ev {
            SessionEvent::Settings(c) => if c.interval_ns() == 0 {
                (ServerSession::Closed, SessionAction::Close)
            } else {
                (
                    ServerSession::Streaming { interval_ns: c.interval_ns(), last_info_ns: 0 },
                    SessionAction::SendInfo,
                )
            },
            _ => (ServerSession::Closed, SessionAction::Close),
        },
        ServerSession::Streaming { interval_ns, last_info_ns } => match ev {
            SessionEvent::Tick { elapsed_ns } => {
                let ts = quantized(elapsed_ns, interval_ns);
                if interval_ns == 0 {
                    (ServerSession::Closed, SessionAction::Close)
                } else if elapsed_ns as int >= last_info_ns as int + INFO_INTERVAL_NS as int {
                    (
                        ServerSession::Streaming { interval_ns, last_info_ns: elapsed_ns },
                        SessionAction::SendSnapshotThenInfo { ts },
                    )
                } else {
                    (s, SessionAction::SendSnapshot { ts })
                }
            },
            _ => (ServerSession::Closed, SessionAction::Close),
        },
        ServerSession::Closed => (ServerSession::Closed, SessionAction::Close),
    }
}

impl ServerSession {
    /// A session whose version cell has just been sent.
    pub fn new() -> (r: Self)
        ensures
            r == ServerSession::Handshaking,
    {
        ServerSession::Handshaking
    }

    /// The session is not over.
    pub fn is_open(&self) -> (r: bool)
        ensures
            r == (*self != ServerSession::Closed),
    {
        !matches!(self, ServerSession::Closed)
    }

    /// Moves the session on by one event and says what to do.
    pub fn step(&mut self, ev: SessionEvent) -> (r: SessionAction)
        ensures
            (*final(self), r) == server_step(*old(self), ev),
    {
        match *self {
            ServerSession::Handshaking => match ev {
                SessionEvent::Settings(c) => {
                    let interval_ns = c.sampling_interval();
                    if interval_ns == 0 {
                        *self = ServerSession::Closed;
                        SessionAction::Close
                    } else {
                        *self = ServerSession::Streaming { interval_ns, last_info_ns: 0 };
                        SessionAction::SendInfo
                    }
                },
                _ => {
                    *self = ServerSession::Closed;
                    SessionAction::Close
                },
            },
            ServerSession::Streaming { interval_ns, last_info_ns } => match ev {
                SessionEvent::Tick { elapsed_ns } => {
                    if interval_ns == 0 {
                        *self = ServerSession::Closed;
                        return SessionAction::Close;
                    }
                    let ts = quantize(elapsed_ns, interval_ns);
                    if elapsed_ns >= last_info_ns && elapsed_ns - last_info_ns >= INFO_INTERVAL_NS {
                        *self = ServerSession::Streaming { interval_ns, last_info_ns: elapsed_ns };
                        SessionAction::SendSnapshotThenInfo { ts }
                    } else {
                        SessionAction::SendSnapshot { ts }
                    }
                },
                _ => {
                    *self = ServerSession::Closed;
                    SessionAction::Close
                },
            },
            ServerSession::Closed => SessionAction::Close,
        }
    }
}

/// The actions of a session that starts in `s` and meets the events `evs`
/// in order.
pub open spec fn server_run(s: ServerSession, evs: Seq<SessionEvent>) -> Seq<SessionAction>
    decreases evs.len(),
{
    if evs.len() == 0 {
        Seq::empty()
    } else {
        let (next, a) = server_step(s, evs[0]);
        seq![a] + server_run(next, evs.drop_first())
    }
}

/// A session has one action per event.
pub proof fn lemma_server_run_len(s: ServerSession, evs: Seq<SessionEvent>)
    ensures
        server_run(s, evs).len() == evs.len(),
    decreases evs.len(),
{
    if evs.len() > 0 {
        let (next, a) = server_step(s, evs[0]);
        lemma_server_run_len(next, evs.drop_first());
    }
}

/// A closed session only closes.
pub proof fn lemma_closed_stays_closed(evs: Seq<SessionEvent>)
    ensures
        forall|k: int|
            0 <= k < evs.len() ==> #[trigger] server_run(ServerSession::Closed, evs)[k]
                == SessionAction::Close,
    decreases evs.len(),
{
    if evs.len() > 0 {
        lemma_closed_stays_closed(evs.drop_first());
        lemma_server_run_len(ServerSession::Closed, evs.drop_first());
        let run = server_run(ServerSession::Closed, evs);
        let rest = server_run(ServerSession::Closed, evs.drop_first());
        assert(run == seq![SessionAction::Close] + rest);
        assert forall|k: int| 0 <= k < evs.len() implies #[trigger] run[k] == SessionAction::Close by {
            if k > 0 {
                assert(run[k] == rest[k - 1]);
            }
        }
    }
}

/// Within a session, the Info packet comes before any Snapshot: the first
/// action of a session that ever sends a snapshot is to send the Info.
pub proof fn lemma_info_precedes_snapshots(evs: Seq<SessionEvent>, k: int)
    requires
        0 <= k < evs.len(),
        sends_snapshot(server_run(ServerSession::Handshaking, evs)[k]),
    ensures
        server_run(ServerSession::Handshaking, evs)[0] == SessionAction::SendInfo,
        k > 0,
{
    let run = server_run(ServerSession::Handshaking, evs);
    let (next, a) = server_step(ServerSession::Handshaking, evs[0]);
    let rest = server_run(next, evs.drop_first());
    lemma_server_run_len(next, evs.drop_first());
    assert(run == seq![a] + rest);
    assert(run[0] == a);
    if a == SessionAction::Close {
        assert(next == ServerSession::Closed);
        lemma_closed_stays_closed(evs.drop_first());
        if k > 0 {
            assert(run[k] == rest[k - 1]);
        }
    }
}

/// A handshake that fails before the settings arrive, as when the client
/// refuses the version, closes the session without sending any data.
pub proof fn lemma_failed_handshake_sends_nothing(evs: Seq<SessionEvent>)
    requires
        evs.len() > 0,
        !(evs[0] is Settings),
    ensures
        forall|k: int|
            0 <= k < evs.len() ==> !sends_data(
                #[trigger] server_run(ServerSession::Handshaking, evs)[k],
            ),
{
    let run = server_run(ServerSession::Handshaking, evs);
    let rest = server_run(ServerSession::Closed, evs.drop_first());
    lemma_server_run_len(ServerSession::Closed, evs.drop_first());
    assert(run == seq![SessionAction::Close] + rest);
    lemma_closed_stays_closed(evs.drop_first());
    assert forall|k: int| 0 <= k < evs.len() implies !sends_data(#[trigger] run[k]) by {
        if k > 0 {
            assert(run[k] == rest[k - 1]);
        }
    }
}

} // verus!
