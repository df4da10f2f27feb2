//! The decisions of the client session: connect, check the server's
//! version, send the settings, then hand each packet to the consumer; on any
//! failure tell the consumer, wait a fixed delay and connect again.
use vstd::prelude::*;

use crate::packet::Packet;
use crate::protocol::VERSION;

verus! {

/// How long, in seconds, the client waits after a failure before it
/// connects again.
pub const RECONNECT_DELAY_SECS: u64 = 1;

/// What the consumer of a client session learns, in order.
#[derive(Clone, Debug)]
pub enum Event {
    /// The handshake succeeded.
    Connect,
    /// The connection failed or was lost.
    Disconnect,
    /// A packet arrived.
    Packet(Packet),
}

/// The state of a client session.
#[derive(Clone, Copy, Debug, PartialEq, Eq, Structural)]
pub enum ClientSession {
    /// A connection is being opened.
    Connecting,
    /// The connection is open; the server's version cell is awaited.
    AwaitingVersion,
    /// The version matched; the settings are being sent.
    SendingSettings,
    /// Packets are being received.
    Streaming,
    /// After a failure, the reconnect delay is running.
    Waiting,
    /// The session was asked to stop.
    Stopped,
}

/// What happened to a client session.
#[derive(Clone, Debug)]
pub enum ClientEvent {
    /// The connection opened.
    Connected,
    /// The server's version cell arrived, holding this version.
    Version(u16),
    /// The settings were sent.
    SettingsSent,
    /// A packet arrived.
    Packet(Packet),
    /// Connecting, reading or writing failed, or a packet did not decode.
    Failed,
    /// The reconnect delay is over.
    DelayElapsed,
    /// The owner asks the session to stop.
    Stop,
}

/// What the client does next.
#[derive(Clone, Debug)]
pub enum ClientAction {
    /// Open a connection.
    Connect,
    /// Read the server's version cell.
    ReadVersion,
    /// Send the client settings.
    SendSettings,
    /// Hand this event to the consumer, then read the next packet.
    Notify(Event),
    /// Hand a disconnect to the consumer, close the connection and start the
    /// reconnect delay.
    Disconnect,
    /// Nothing: wait for the next event.
    Wait,
    /// Close the connection, if one is open, and end the session.
    Shutdown,
}

/// The session holds an open connection, or is opening one.
pub open spec fn is_live(s: ClientSession) -> bool {
    s != ClientSession::Waiting && s != ClientSession::Stopped
}

/// The next state of the session and its action, on an event.
pub open spec fn client_step(s: ClientSession, ev: ClientEvent) -> (ClientSession, ClientAction) {
    match ev {
        ClientEvent::Stop => (ClientSession::Stopped, ClientAction::Shutdown),
        _ => match s {
            ClientSession::Stopped => (ClientSession::Stopped, ClientAction::Wait),
            ClientSession::Waiting => match ev {
                ClientEvent::DelayElapsed => (ClientSession::Connecting, ClientAction::Connect),
                _ => (ClientSession::Waiting, ClientAction::Wait),
            },
            ClientSession::Connecting => match ev {
                ClientEvent::Connected => (ClientSession::AwaitingVersion, ClientAction::ReadVersion),
                _ => (ClientSession::Waiting, ClientAction::Disconnect),
            },
            ClientSession::AwaitingVersion => match ev {
                ClientEvent::Version(v) => if v == VERSION {
                    (ClientSession::SendingSettings, ClientAction::SendSettings)
                } else {
                    (ClientSession::Waiting, ClientAction::Disconnect)
                },
                _ => (ClientSession::Waiting, ClientAction::Disconnect),
            },
            ClientSession::SendingSettings => match ev {
                ClientEvent::SettingsSent => (
                    ClientSession::Streaming,
                    ClientAction::Notify(Event::Connect),
                ),
                _ => (ClientSession::Waiting, ClientAction::Disconnect),
            },
            ClientSession::Streaming => match ev {
                ClientEvent::Packet(p) => (
                    ClientSession::Streaming,
                    ClientAction::Notify(Event::Packet(p)),
                ),
                _ => (ClientSession::Waiting, ClientAction::Disconnect),
            },
        },
    }
}

impl ClientSession {
    /// A session that is about to open its first connection.
    pub fn new() -> (r: Self)
        ensures
            r == ClientSession::Connecting,
    {
        ClientSession::Connecting
    }

    /// The session was asked to stop.
    pub fn is_stopped(&self) -> (r: bool)
        ensures
            r == (*self == ClientSession::Stopped),
    {
        matches!(self, ClientSession::Stopped)
    }

    /// Moves the session on by one event and says what to do.
    pub fn step(&mut self, ev: ClientEvent) -> (r: ClientAction)
        ensures
            (*final(self), r) == client_step(*old(self), ev),
    {
        if let ClientEvent::Stop = ev {
            *self = ClientSession::Stopped;
            return ClientAction::Shutdown;
        }
        match *self {
            ClientSession::Stopped => ClientAction::Wait,
            ClientSession::Waiting => match ev {
                ClientEvent::DelayElapsed => {
                    *self = ClientSession::Connecting;
                    ClientAction::Connect
                },
                _ => ClientAction::Wait,
            },
            ClientSession::Connecting => match ev {
                ClientEvent::Connected => {
                    *self = ClientSession::AwaitingVersion;
                    ClientAction::ReadVersion
                },
                _ => {
                    *self = ClientSession::Waiting;
                    ClientAction::Disconnect
                },
            },
            ClientSession::AwaitingVersion => match ev {
                ClientEvent::Version(v) => {
                    if v == VERSION {
                        *self = ClientSession::SendingSettings;
                        ClientAction::SendSettings
                    } else {
                        *self = ClientSession::Waiting;
                        ClientAction::Disconnect
                    }
                },
                _ => {
                    *self = ClientSession::Waiting;
                    ClientAction::Disconnect
                },
            },
            ClientSession::SendingSettings => match ev {
                ClientEvent::SettingsSent => {
                    *self = ClientSession::Streaming;
                    ClientAction::Notify(Event::Connect)
                },
                _ => {
                    *self = ClientSession::Waiting;
                    ClientAction::Disconnect
                },
            },
            ClientSession::Streaming => match ev {
                ClientEvent::Packet(p) => ClientAction::Notify(Event::Packet(p)),
                _ => {
                    *self = ClientSession::Waiting;
                    ClientAction::Disconnect
                },
            },
        }
    }
}

/// A failure on a live session tells the consumer of the disconnect and
/// starts the reconnect delay; while the delay runs, nothing but its end
/// opens a connection, and its end opens exactly one.
pub proof fn lemma_failure_waits_then_reconnects_once(s: ClientSession, ev: ClientEvent)
    ensures
        is_live(s) ==> client_step(s, ClientEvent::Failed) == (
            ClientSession::Waiting,
            ClientAction::Disconnect,
        ),
        client_step(ClientSession::Waiting, ClientEvent::DelayElapsed) == (
            ClientSession::Connecting,
            ClientAction::Connect,
        ),
        !(ev is DelayElapsed) && !(ev is Stop) ==> client_step(ClientSession::Waiting, ev) == (
            ClientSession::Waiting,
            ClientAction::Wait,
        ),
{
}

/// A server that advertises another version is refused before any packet
/// is read: the session disconnects and never reaches streaming.
pub proof fn lemma_version_mismatch_disconnects(v: u16)
    requires
        v != VERSION,
    ensures
        client_step(ClientSession::AwaitingVersion, ClientEvent::Version(v)) == (
            ClientSession::Waiting,
            ClientAction::Disconnect,
        ),
{
}

/// Packets reach the consumer only while streaming, and streaming is
/// reached only from a sent settings message after a matching version.
pub proof fn lemma_packets_only_after_handshake(s: ClientSession, ev: ClientEvent)
    ensures
        client_step(s, ev).1 is Notify && client_step(s, ev).1->Notify_0 is Packet ==> s
            == ClientSession::Streaming,
        client_step(s, ev).0 == ClientSession::Streaming ==> s == ClientSession::Streaming || (s
            == ClientSession::SendingSettings && ev is SettingsSent),
        client_step(s, ev).0 == ClientSession::SendingSettings ==> s
            == ClientSession::AwaitingVersion && ev == ClientEvent::Version(VERSION),
{
}

} // verus!
