use character::client::{
    boredom_reply, creditz_reply, happiness_reply, hunger_reply, poll_step, success_reply,
    CharacterError, ClientSession, Incoming, PollStep, RequestStep,
};
use character::protocol::{Notification, Response, ServerMessage, StatBar};
use character::server::{envelopes, is_open, next_state, ConnEvent, ConnState};
use character::store::MemoryStore;
use character::protocol::Request;

fn note(id: u32, v: u32) -> Notification {
    Notification::CreditzChanged { user_id: id, new_value: v }
}

#[test]
fn notification_before_response_is_kept() {
    let mut session = ClientSession::new();
    let n = note(42, 100);
    let step = session.on_request_frame(Incoming::Message(ServerMessage::Notification(n)));
    assert_eq!(step, RequestStep::KeepReading);
    let step = session.on_request_frame(Incoming::Message(ServerMessage::Response(Response::Success)));
    assert_eq!(step, RequestStep::Done(Response::Success));
    assert_eq!(session.take_buffered(), vec![n]);
    assert_eq!(session.take_buffered(), vec![]);
}

#[test]
fn lost_connection_resends_and_then_answers() {
    let mut store = MemoryStore::new();
    let req = Request::GetCreditz(42);
    let mut session = ClientSession::new();
    let mut attempts = 0;
    let mut incoming = vec![Incoming::Lost, Incoming::Lost];
    let answer = loop {
        attempts += 1;
        assert!(attempts <= 3);
        let next = if incoming.is_empty() {
            Incoming::Message(ServerMessage::Response(store.process_request(&req).0))
        } else {
            incoming.remove(0)
        };
        match session.on_request_frame(next) {
            RequestStep::Done(r) => break r,
            RequestStep::Resend | RequestStep::KeepReading => continue,
        }
    };
    assert_eq!(attempts, 3);
    assert_eq!(answer, Response::Creditz(0));
}

#[test]
fn buffered_notifications_come_out_in_order() {
    let mut session = ClientSession::new();
    for v in 1..=3u32 {
        session.on_request_frame(Incoming::Message(ServerMessage::Notification(note(1, v))));
    }
    assert_eq!(session.on_request_frame(Incoming::Idle), RequestStep::KeepReading);
    assert_eq!(session.take_buffered(), vec![note(1, 1), note(1, 2), note(1, 3)]);
}

#[test]
fn polling_collects_until_idle() {
    let mut collected = vec![note(1, 1)];
    let m = Incoming::Message(ServerMessage::Notification(note(2, 2)));
    assert_eq!(poll_step(&mut collected, m), PollStep::KeepReading);
    assert_eq!(poll_step(&mut collected, Incoming::Idle), PollStep::Finished);
    assert_eq!(collected, vec![note(1, 1), note(2, 2)]);
}

#[test]
fn polling_flags_a_stray_response_and_a_lost_connection() {
    let mut collected = Vec::new();
    let m = Incoming::Message(ServerMessage::Response(Response::Success));
    assert_eq!(poll_step(&mut collected, m), PollStep::Violation);
    assert_eq!(poll_step(&mut collected, Incoming::Lost), PollStep::Reconnect);
    assert!(collected.is_empty());
}

#[test]
fn replies_map_to_results() {
    let bar = StatBar::from_u32(77);
    assert_eq!(creditz_reply(Response::Creditz(3)), Ok(3));
    assert_eq!(success_reply(Response::Success), Ok(()));
    assert_eq!(happiness_reply(Response::Happiness(bar)), Ok(bar));
    assert_eq!(hunger_reply(Response::Hunger(bar)), Ok(bar));
    assert_eq!(boredom_reply(Response::Boredom(bar)), Ok(bar));
}

#[test]
fn replies_report_errors_and_mismatches() {
    let e = || Response::Error("Insufficient funds".to_string());
    let server = CharacterError::Server("Insufficient funds".to_string());
    assert_eq!(creditz_reply(e()), Err(server.clone()));
    assert_eq!(success_reply(e()), Err(server.clone()));
    assert_eq!(happiness_reply(e()), Err(server.clone()));
    assert_eq!(creditz_reply(Response::Success), Err(CharacterError::UnexpectedPacket));
    assert_eq!(success_reply(Response::Creditz(1)), Err(CharacterError::UnexpectedPacket));
    let bar = StatBar::from_u32(1);
    assert_eq!(happiness_reply(Response::Hunger(bar)), Err(CharacterError::UnexpectedPacket));
    assert_eq!(hunger_reply(Response::Boredom(bar)), Err(CharacterError::UnexpectedPacket));
    assert_eq!(boredom_reply(Response::Happiness(bar)), Err(CharacterError::UnexpectedPacket));
}

#[test]
fn connection_closes_after_a_failure() {
    let s = next_state(ConnState::Open, ConnEvent::Served);
    assert_eq!(s, ConnState::Open);
    assert!(is_open(s));
    let s = next_state(s, ConnEvent::ReadFailed);
    assert_eq!(s, ConnState::Closing);
    assert!(!is_open(s));
    assert_eq!(next_state(s, ConnEvent::Served), ConnState::Closing);
    let s = next_state(s, ConnEvent::Deregistered);
    assert_eq!(s, ConnState::Closed);
    assert_eq!(next_state(s, ConnEvent::Written), ConnState::Closed);
    assert_eq!(next_state(ConnState::Open, ConnEvent::WriteFailed), ConnState::Closing);
}

#[test]
fn response_goes_back_and_notification_goes_out() {
    let (resp, notif) = envelopes(Response::Success, Some(note(42, 100)));
    assert_eq!(resp, ServerMessage::Response(Response::Success));
    assert_eq!(notif, Some(ServerMessage::Notification(note(42, 100))));
    let (_, none) = envelopes(Response::Creditz(1), None);
    assert_eq!(none, None);
}
