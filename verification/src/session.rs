//! Decision core of one client session. The session bridges a connection to
//! the fan-out bus (outbound) and the write funnel (inbound): every event the
//! surrounding tasks observe is mapped here to exactly one action, so the
//! gating of client writes and the termination conditions are fixed by the
//! contract rather than by the I/O loop.

use vstd::prelude::*;
use vstd::string::StringExecFns;

verus! {

/// What a session task can observe: traffic and closure from the fan-out
/// bus, and traffic and failure from its own connection.
#[derive(Clone, Debug)]
pub enum SessionEvent {
    /// A chunk of serial output delivered by the fan-out bus.
    BusChunk(Vec<u8>),
    /// The subscription lagged and lost this many chunks; delivery resumes.
    BusLagged(u64),
    /// The bus is gone: the serial link has ended.
    BusClosed,
    /// Bytes the peer sent on the connection.
    ConnBytes(Vec<u8>),
    /// The peer closed the connection.
    ConnClosed,
    /// The connection failed.
    ConnError,
}

/// Why a session ends.
#[derive(Clone, Copy, Debug, PartialEq, Eq, Structural)]
pub enum StopReason {
    /// The peer closed the connection: a clean exit.
    PeerClosed,
    /// A transport error local to this session.
    Transport,
    /// The upstream bus or funnel is gone: the device link ended.
    UpstreamGone,
}

/// The one action a session performs in response to an event.
#[derive(Clone, Debug)]
pub enum SessionAction {
    /// Write these bytes to the connection and flush.
    SendToConn(Vec<u8>),
    /// Submit these bytes to the write funnel.
    SubmitToFunnel(Vec<u8>),
    /// Do nothing and keep running.
    Ignore,
    /// Terminate the session.
    Stop(StopReason),
}

/// One client session: its write permission. The connection itself, the bus
/// subscription and the funnel handle live with the task that runs the
/// session.
#[derive(Clone, Debug)]
pub struct ClientSession {
    pub write_enabled: bool,
}

/// The session's event-to-action map: bus traffic goes to the connection,
/// connection traffic goes to the funnel only when writes are enabled, a gap
/// is tolerated, and closure of either side terminates the session with the
/// matching reason.
pub open spec fn session_step(write_enabled: bool, ev: SessionEvent) -> SessionAction {
    match ev {
        SessionEvent::BusChunk(chunk) => SessionAction::SendToConn(chunk),
        SessionEvent::BusLagged(_) => SessionAction::Ignore,
        SessionEvent::BusClosed => SessionAction::Stop(StopReason::UpstreamGone),
        SessionEvent::ConnBytes(data) => if write_enabled {
            SessionAction::SubmitToFunnel(data)
        } else {
            SessionAction::Ignore
        },
        SessionEvent::ConnClosed => SessionAction::Stop(StopReason::PeerClosed),
        SessionEvent::ConnError => SessionAction::Stop(StopReason::Transport),
    }
}

impl ClientSession {
    /// A session starts with nothing but its write permission.
    pub fn new(write_enabled: bool) -> (s: ClientSession)
        ensures
            s.write_enabled == write_enabled,
    {
        ClientSession { write_enabled }
    }

    /// Maps one observed event to the one action the session performs.
    pub fn on_event(&self, ev: SessionEvent) -> (a: SessionAction)
        ensures
            a == session_step(self.write_enabled, ev),
    {
        match ev {
            SessionEvent::BusChunk(chunk) => SessionAction::SendToConn(chunk),
            SessionEvent::BusLagged(_) => SessionAction::Ignore,
            SessionEvent::BusClosed => SessionAction::Stop(StopReason::UpstreamGone),
            SessionEvent::ConnBytes(data) => if self.write_enabled {
                SessionAction::SubmitToFunnel(data)
            } else {
                SessionAction::Ignore
            },
            SessionEvent::ConnClosed => SessionAction::Stop(StopReason::PeerClosed),
            SessionEvent::ConnError => SessionAction::Stop(StopReason::Transport),
        }
    }
}

/// With write disabled, no event whatever makes the session submit to the
/// write funnel: bytes received from the connection never reach the device.
pub proof fn law_write_disabled_never_submits(ev: SessionEvent)
    ensures
        !(session_step(false, ev) is SubmitToFunnel),
{
}

/// When the bus closes — the device link has ended — every session stops
/// with the distinct upstream-gone reason instead of waiting for traffic
/// that can no longer come.
pub proof fn law_bus_closed_terminates(write_enabled: bool)
    ensures
        session_step(write_enabled, SessionEvent::BusClosed) == SessionAction::Stop(
            StopReason::UpstreamGone,
        ),
{
}

/// The one-line banner a session writes to a fresh connection, naming the
/// device it is connected to.
pub fn banner(ser_name: &str) -> (r: String)
    ensures
        r@ == "*** Connected to: "@ + ser_name@ + "\n"@,
{
    let mut s = String::from_str("*** Connected to: ");
    s.append(ser_name);
    s.append("\n");
    s
}

} // verus!
