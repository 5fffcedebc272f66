//! The client's side of the protocol, apart from the socket: how a response
//! answers each call, and how frames that arrive are sorted into the awaited
//! response and the notifications kept for later.
//!
//! While a request is in flight, each frame read is handed to
//! [`ClientSession::on_request_frame`]; between requests, frames picked up by a
//! short read are handed to [`ClientSession::on_poll_frame`]. A lost connection
//! is reconnected by the caller, which then sends the same request again.
use vstd::prelude::*;
use crate::protocol::{Notification, Response, ServerMessage, StatBar};

verus! {

/// Why a client call failed.
#[derive(Debug, Clone, PartialEq)]
pub enum CharacterError {
    /// The connection failed; the text describes how.
    Io(String),
    /// A frame could not be decoded; the text describes how.
    Decode(String),
    /// The server answered with an error.
    Server(String),
    /// The server sent a message that does not fit the call.
    UnexpectedPacket,
    /// The connection was closed.
    ConnectionClosed,
}

/// The answer to a call that reads the balance.
pub fn creditz_reply(resp: Response) -> (r: Result<u32, CharacterError>)
    ensures
        match resp {
            Response::Creditz(v) => r == Ok::<u32, CharacterError>(v),
            Response::Error(e) => r == Err::<u32, CharacterError>(CharacterError::Server(e)),
            _ => r == Err::<u32, CharacterError>(CharacterError::UnexpectedPacket),
        },
{
    match resp {
        Response::Creditz(v) => Ok(v),
        Response::Error(e) => Err(CharacterError::Server(e)),
        _ => Err(CharacterError::UnexpectedPacket),
    }
}

/// The answer to a call that changes state.
pub fn success_reply(resp: Response) -> (r: Result<(), CharacterError>)
    ensures
        match resp {
            Response::Success => r == Ok::<(), CharacterError>(()),
            Response::Error(e) => r == Err::<(), CharacterError>(CharacterError::Server(e)),
            _ => r == Err::<(), CharacterError>(CharacterError::UnexpectedPacket),
        },
{
    match resp {
        Response::Success => Ok(()),
        Response::Error(e) => Err(CharacterError::Server(e)),
        _ => Err(CharacterError::UnexpectedPacket),
    }
}

/// The answer to a call that reads happiness.
pub fn happiness_reply(resp: Response) -> (r: Result<StatBar, CharacterError>)
    ensures
        match resp {
            Response::Happiness(v) => r == Ok::<StatBar, CharacterError>(v),
            Response::Error(e) => r == Err::<StatBar, CharacterError>(CharacterError::Server(e)),
            _ => r == Err::<StatBar, CharacterError>(CharacterError::UnexpectedPacket),
        },
{
    match resp {
        Response::Happiness(v) => Ok(v),
        Response::Error(e) => Err(CharacterError::Server(e)),
        _ => Err(CharacterError::UnexpectedPacket),
    }
}

/// The answer to a call that reads hunger.
pub fn hunger_reply(resp: Response) -> (r: Result<StatBar, CharacterError>)
    ensures
        match resp {
            Response::Hunger(v) => r == Ok::<StatBar, CharacterError>(v),
            Response::Error(e) => r == Err::<StatBar, CharacterError>(CharacterError::Server(e)),
            _ => r == Err::<StatBar, CharacterError>(CharacterError::UnexpectedPacket),
        },
{
    match resp {
        Response::Hunger(v) => Ok(v),
        Response::Error(e) => Err(CharacterError::Server(e)),
        _ => Err(CharacterError::UnexpectedPacket),
    }
}

/// The answer to a call that reads boredom.
pub fn boredom_reply(resp: Response) -> (r: Result<StatBar, CharacterError>)
    ensures
        match resp {
            Response::Boredom(v) => r == Ok::<StatBar, CharacterError>(v),
            Response::Error(e) => r == Err::<StatBar, CharacterError>(CharacterError::Server(e)),
            _ => r == Err::<StatBar, CharacterError>(CharacterError::UnexpectedPacket),
        },
{
    match resp {
        Response::Boredom(v) => Ok(v),
        Response::Error(e) => Err(CharacterError::Server(e)),
        _ => Err(CharacterError::UnexpectedPacket),
    }
}

/// What one read on the connection produced.
#[derive(Debug, Clone, PartialEq)]
pub enum Incoming {
    /// A whole frame that decoded to a message.
    Message(ServerMessage),
    /// A short read found nothing waiting.
    Idle,
    /// The connection failed, or a frame did not decode.
    Lost,
}

/// What to do next while a request is in flight.
#[derive(Debug, Clone, PartialEq)]
pub enum RequestStep {
    /// The call is answered.
    Done(Response),
    /// Read the next frame.
    KeepReading,
    /// Reconnect and send the same request again.
    Resend,
}

/// What to do next while picking up notifications between requests.
#[derive(Debug, Clone, Copy, PartialEq, Eq, Structural)]
pub enum PollStep {
    /// Read again.
    KeepReading,
    /// Nothing more is waiting: return what was collected.
    Finished,
    /// The connection failed: reconnect, then return what was collected.
    Reconnect,
    /// A response came with no request in flight: reconnect, then fail with
    /// `UnexpectedPacket`.
    Violation,
}

/// The next step and the buffered notifications after `incoming` is read while
/// a request is in flight, with `buffered` held before.
pub open spec fn request_step(buffered: Seq<Notification>, incoming: Incoming) -> (
    RequestStep,
    Seq<Notification>,
) {
    match incoming {
        Incoming::Message(ServerMessage::Response(resp)) => (RequestStep::Done(resp), buffered),
        Incoming::Message(ServerMessage::Notification(n)) => (
            RequestStep::KeepReading,
            buffered.push(n),
        ),
        Incoming::Idle => (RequestStep::KeepReading, buffered),
        Incoming::Lost => (RequestStep::Resend, buffered),
    }
}

/// A notification that arrives before the awaited response does not disturb
/// the call: the response still answers it, and the notification is kept,
/// after those kept before it, for the next pick-up.
pub proof fn lemma_notification_before_response(
    buffered: Seq<Notification>,
    n: Notification,
    resp: Response,
)
    ensures
        ({
            let (s1, b1) = request_step(buffered, Incoming::Message(ServerMessage::Notification(n)));
            let (s2, b2) = request_step(b1, Incoming::Message(ServerMessage::Response(resp)));
            &&& s1 == RequestStep::KeepReading
            &&& s2 == RequestStep::Done(resp)
            &&& b2 == buffered.push(n)
        }),
{
}

/// A lost connection never ends a call: the request is sent again, nothing
/// buffered is dropped, and the response read after reconnecting answers it.
pub proof fn lemma_lost_connection_resends(buffered: Seq<Notification>, resp: Response)
    ensures
        ({
            let (s1, b1) = request_step(buffered, Incoming::Lost);
            let (s2, b2) = request_step(b1, Incoming::Message(ServerMessage::Response(resp)));
            &&& s1 == RequestStep::Resend
            &&& s2 == RequestStep::Done(resp)
            &&& b2 == buffered
        }),
{
}

/// The notifications that arrived while requests were in flight, oldest first.
pub struct ClientSession {
    buffered: Vec<Notification>,
}

impl View for ClientSession {
    type V = Seq<Notification>;

    closed spec fn view(&self) -> Seq<Notification> {
        self.buffered@
    }
}

impl ClientSession {
    /// Nothing buffered.
    pub fn new() -> (r: ClientSession)
        ensures
            r@ == Seq::<Notification>::empty(),
    {
        ClientSession { buffered: Vec::new() }
    }

    /// Handles what a read produced while a request is in flight: a response
    /// answers it, a notification is buffered and reading goes on, and a lost
    /// connection has the request sent again.
    pub fn on_request_frame(&mut self, incoming: Incoming) -> (r: RequestStep)
        ensures
            (r, final(self)@) == request_step(old(self)@, incoming),
    {
        match incoming {
            Incoming::Message(ServerMessage::Response(resp)) => RequestStep::Done(resp),
            Incoming::Message(ServerMessage::Notification(n)) => {
                self.buffered.push(n);
                RequestStep::KeepReading
            },
            Incoming::Idle => RequestStep::KeepReading,
            Incoming::Lost => RequestStep::Resend,
        }
    }

    /// Hands out everything buffered, oldest first, and empties the buffer.
    pub fn take_buffered(&mut self) -> (r: Vec<Notification>)
        ensures
            r@ == old(self)@,
            final(self)@ == Seq::<Notification>::empty(),
    {
        let mut out: Vec<Notification> = Vec::new();
        std::mem::swap(&mut out, &mut self.buffered);
        out
    }
}

/// Handles what a short read produced between requests: a notification is
/// added to `collected` and reading goes on; see [`PollStep`] for the rest.
pub fn poll_step(collected: &mut Vec<Notification>, incoming: Incoming) -> (r: PollStep)
    ensures
        match incoming {
            Incoming::Message(ServerMessage::Notification(n)) => r == PollStep::KeepReading
                && final(collected)@ == old(collected)@.push(n),
            Incoming::Message(ServerMessage::Response(_)) => r == PollStep::Violation
                && final(collected)@ == old(collected)@,
            Incoming::Idle => r == PollStep::Finished && final(collected)@ == old(collected)@,
            Incoming::Lost => r == PollStep::Reconnect && final(collected)@ == old(collected)@,
        },
{
    match incoming {
        Incoming::Message(ServerMessage::Notification(n)) => {
            collected.push(n);
            PollStep::KeepReading
        },
        Incoming::Message(ServerMessage::Response(_)) => PollStep::Violation,
        Incoming::Idle => PollStep::Finished,
        Incoming::Lost => PollStep::Reconnect,
    }
}

} // verus!
