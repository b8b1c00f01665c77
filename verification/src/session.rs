//! The serial echo consumer's session state machine.
//!
//! The CDC serial link is a session that starts disconnected, streams one
//! formatted line per reading while the host keeps the port open, and
//! recovers from a disconnection by waiting for the next connect.  A write
//! can fail two ways that must never be collapsed: a disabled endpoint is
//! an expected disconnection and loops the session back to waiting, while
//! a buffer overflow is a programmer invariant violation and halts the
//! device for good.

use vstd::prelude::*;
use crate::linefmt::{format_line, line_spec, LineOverflow};
use crate::signal::BroadcastSignal;

verus! {

/// Pause between two streamed lines while connected, in milliseconds.
pub const ECHO_CADENCE_MS: u64 = 2000;

/// Where the session stands.
#[derive(Clone, Copy, PartialEq, Eq, Structural, Debug)]
pub enum SessionState {
    /// No host has the port open; the consumer sleeps until one does.
    AwaitingConnection,
    /// A host has the port open; one line is streamed per reading.
    StreamingConnected,
    /// A rendered line did not fit its packet buffer; unrecoverable.
    Fatal,
}

/// What the outside world reports to the session.
#[derive(Clone, Copy, PartialEq, Eq, Structural, Debug)]
pub enum SessionEvent {
    /// The host opened the port.
    HostOpened,
    /// The last packet write went through.
    WriteOk,
    /// The last packet write failed because the endpoint is disabled.
    EndpointDisabled,
    /// The last packet write overran the fixed packet buffer.
    BufferOverflow,
}

/// What the session asks its driver to do next.
#[derive(Clone, Copy, PartialEq, Eq, Structural, Debug)]
pub enum SessionAction {
    /// Note the new connection (observability only).
    EmitConnectNotice,
    /// Sleep for the streaming cadence, then await the next reading.
    WaitCadence,
    /// Note the lost connection (observability only).
    EmitDisconnectNotice,
    /// Stop the device with a diagnostic.
    Halt,
    /// Nothing to do; keep waiting for a relevant event.
    Stay,
}

/// The transition table: next state and action for each state and event.
pub open spec fn spec_session_step(s: SessionState, e: SessionEvent) -> (SessionState,
    SessionAction) {
    match (s, e) {
        (SessionState::AwaitingConnection, SessionEvent::HostOpened) => (
            SessionState::StreamingConnected,
            SessionAction::EmitConnectNotice,
        ),
        (SessionState::AwaitingConnection, _) => (
            SessionState::AwaitingConnection,
            SessionAction::Stay,
        ),
        (SessionState::StreamingConnected, SessionEvent::WriteOk) => (
            SessionState::StreamingConnected,
            SessionAction::WaitCadence,
        ),
        (SessionState::StreamingConnected, SessionEvent::EndpointDisabled) => (
            SessionState::AwaitingConnection,
            SessionAction::EmitDisconnectNotice,
        ),
        (SessionState::StreamingConnected, SessionEvent::BufferOverflow) => (
            SessionState::Fatal,
            SessionAction::Halt,
        ),
        (SessionState::StreamingConnected, SessionEvent::HostOpened) => (
            SessionState::StreamingConnected,
            SessionAction::Stay,
        ),
        (SessionState::Fatal, _) => (SessionState::Fatal, SessionAction::Halt),
    }
}

/// Advance the session by one event.
pub fn session_step(s: SessionState, e: SessionEvent) -> (r: (SessionState, SessionAction))
    ensures
        r == spec_session_step(s, e),
{
    match (s, e) {
        (SessionState::AwaitingConnection, SessionEvent::HostOpened) => (
            SessionState::StreamingConnected,
            SessionAction::EmitConnectNotice,
        ),
        (SessionState::AwaitingConnection, _) => (
            SessionState::AwaitingConnection,
            SessionAction::Stay,
        ),
        (SessionState::StreamingConnected, SessionEvent::WriteOk) => (
            SessionState::StreamingConnected,
            SessionAction::WaitCadence,
        ),
        (SessionState::StreamingConnected, SessionEvent::EndpointDisabled) => (
            SessionState::AwaitingConnection,
            SessionAction::EmitDisconnectNotice,
        ),
        (SessionState::StreamingConnected, SessionEvent::BufferOverflow) => (
            SessionState::Fatal,
            SessionAction::Halt,
        ),
        (SessionState::StreamingConnected, SessionEvent::HostOpened) => (
            SessionState::StreamingConnected,
            SessionAction::Stay,
        ),
        (SessionState::Fatal, _) => (SessionState::Fatal, SessionAction::Halt),
    }
}

/// What the streaming loop does with one reading: a line to write as one
/// packet, or the fatal overflow verdict.
pub enum StreamDecision {
    /// Write these bytes as one packet.
    Send(Vec<u8>),
    /// The line would not fit the packet buffer: halt, do not truncate.
    FatalOverflow,
}

/// Turn one reading into the packet to write, refusing a line that would
/// overrun a buffer of `capacity` bytes.
pub fn stream_sample(t: i32, capacity: usize) -> (r: StreamDecision)
    ensures
        r is Send <==> line_spec(t as int).len() <= capacity,
        r matches StreamDecision::Send(line) ==> line@ == line_spec(t as int) && line@.len()
            <= capacity,
        r is FatalOverflow <==> line_spec(t as int).len() > capacity,
{
    match format_line(t, capacity) {
        Ok(line) => StreamDecision::Send(line),
        Err(LineOverflow) => StreamDecision::FatalOverflow,
    }
}

/// One streaming-loop pass over the broadcast signal: consume the pending
/// reading, if any, and turn it into the packet to write.  A pass that
/// finds nothing pending is the moment the consumer suspends until the
/// next publish.
pub fn stream_pending(sig: &mut BroadcastSignal, capacity: usize) -> (r: Option<StreamDecision>)
    ensures
        final(sig).pending() is None,
        r is None <==> old(sig).pending() is None,
        old(sig).pending() matches Some(t) ==> ({
            &&& line_spec(t as int).len() <= capacity ==> (r matches Some(
                StreamDecision::Send(line),
            ) && line@ == line_spec(t as int))
            &&& line_spec(t as int).len() > capacity ==> r == Some(StreamDecision::FatalOverflow)
        }),
{
    match sig.try_take() {
        None => None,
        Some(t) => Some(stream_sample(t, capacity)),
    }
}

/// The outside error type a packet write reports.
#[verifier::external_type_specification]
#[verifier::external_body]
pub struct ExEndpointError(embassy_usb::driver::EndpointError);

/// Relies on embassy_usb::driver::EndpointError: a failed packet write
/// carries exactly one of the variants `Disabled` (the endpoint is down)
/// or `BufferOverflow` (the packet overran the transmission buffer); the
/// match maps each to the session event of the same meaning.
#[verifier::external_body]
fn classify_endpoint_error(e: embassy_usb::driver::EndpointError) -> (r: SessionEvent)
    ensures
        r == SessionEvent::EndpointDisabled || r == SessionEvent::BufferOverflow,
{
    match e {
        embassy_usb::driver::EndpointError::Disabled => SessionEvent::EndpointDisabled,
        embassy_usb::driver::EndpointError::BufferOverflow => SessionEvent::BufferOverflow,
    }
}

/// Apply the outcome of one packet write to the session: success keeps
/// streaming at the fixed cadence; a failure is classified and either
/// loops the session back to waiting or halts it.
pub fn handle_write_result(
    s: SessionState,
    outcome: Result<(), embassy_usb::driver::EndpointError>,
) -> (r: (SessionState, SessionAction))
    ensures
        outcome is Ok ==> r == spec_session_step(s, SessionEvent::WriteOk),
        outcome is Err ==> r == spec_session_step(s, SessionEvent::EndpointDisabled) || r
            == spec_session_step(s, SessionEvent::BufferOverflow),
{
    match outcome {
        Ok(()) => session_step(s, SessionEvent::WriteOk),
        Err(e) => session_step(s, classify_endpoint_error(e)),
    }
}

} // verus!
