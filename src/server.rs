//! The life of one accepted connection on the server.
//!
//! A connection stays `Open` while its frames read and write; the first failure
//! of either moves it to `Closing`, and removing it from the registry closes it.
//! Nothing moves a connection back: a broken frame is never recovered.
use vstd::prelude::*;
use crate::protocol::{Notification, Response, ServerMessage};

verus! {

/// Where a connection stands.
#[derive(Debug, Clone, Copy, PartialEq, Eq, Structural)]
pub enum ConnState {
    Open,
    Closing,
    Closed,
}

/// What happened on a connection.
#[derive(Debug, Clone, Copy, PartialEq, Eq, Structural)]
pub enum ConnEvent {
    /// A request frame was read, decoded and answered.
    Served,
    /// A frame queued for this connection was written to its socket.
    Written,
    /// Reading failed, the length prefix was bad, or a request did not decode.
    ReadFailed,
    /// Writing to the socket, or queueing on the connection's channel, failed.
    WriteFailed,
    /// The connection's registry entry was removed.
    Deregistered,
}

/// The state after `e` in state `s`.
pub open spec fn conn_next(s: ConnState, e: ConnEvent) -> ConnState {
    match (s, e) {
        (ConnState::Open, ConnEvent::Served) => ConnState::Open,
        (ConnState::Open, ConnEvent::Written) => ConnState::Open,
        (ConnState::Open, ConnEvent::ReadFailed) => ConnState::Closing,
        (ConnState::Open, ConnEvent::WriteFailed) => ConnState::Closing,
        (ConnState::Open, ConnEvent::Deregistered) => ConnState::Closed,
        (ConnState::Closing, ConnEvent::Deregistered) => ConnState::Closed,
        (ConnState::Closing, _) => ConnState::Closing,
        (ConnState::Closed, _) => ConnState::Closed,
    }
}

/// Moves a connection along after `event`.
pub fn next_state(state: ConnState, event: ConnEvent) -> (r: ConnState)
    ensures
        r == conn_next(state, event),
{
    match (state, event) {
        (ConnState::Open, ConnEvent::Served) | (ConnState::Open, ConnEvent::Written) => ConnState::Open,
        (ConnState::Open, ConnEvent::ReadFailed) | (ConnState::Open, ConnEvent::WriteFailed) => ConnState::Closing,
        (_, ConnEvent::Deregistered) => ConnState::Closed,
        (ConnState::Closing, _) => ConnState::Closing,
        (ConnState::Closed, _) => ConnState::Closed,
    }
}

/// Whether the connection still reads requests and writes frames.
pub fn is_open(state: ConnState) -> (r: bool)
    ensures
        r == (state == ConnState::Open),
{
    match state {
        ConnState::Open => true,
        _ => false,
    }
}

/// A failure is final: once a connection is not open, no event opens it again.
pub proof fn lemma_no_reopen(s: ConnState, e: ConnEvent)
    requires
        s != ConnState::Open,
    ensures
        conn_next(s, e) != ConnState::Open,
{
}

/// The messages to write after serving a request: the response goes to the
/// requester alone, and a notification, if any, to every registered connection.
pub fn envelopes(resp: Response, notification: Option<Notification>) -> (r: (
    ServerMessage,
    Option<ServerMessage>,
))
    ensures
        r.0 == ServerMessage::Response(resp),
        r.1 == match notification {
            Some(n) => Some(ServerMessage::Notification(n)),
            None => None::<ServerMessage>,
        },
{
    let broadcast = match notification {
        Some(n) => Some(ServerMessage::Notification(n)),
        None => None,
    };
    (ServerMessage::Response(resp), broadcast)
}

} // verus!
