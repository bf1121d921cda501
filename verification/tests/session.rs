use feedhub::hub::Delivery;
use feedhub::session::{CloseReason, Session, SessionAction, SessionEvent};

fn envelope(text: &str) -> SessionEvent {
    SessionEvent::Delivered(Delivery::Envelope(text.to_string()))
}

#[test]
fn attach_starts_with_a_receive() {
    let (session, action) = Session::attach();
    assert_eq!(session, Session::Waiting);
    assert_eq!(action, SessionAction::Receive);
}

#[test]
fn delivered_envelope_is_sent_unchanged() {
    let (mut session, _) = Session::attach();
    let frame = "{\"exchange\":\"binance\",\"data\":{\"p\":\"0.10\",\"q\":\"1.000\"}}";
    assert_eq!(session.step(envelope(frame)), SessionAction::Send(frame.to_string()));
    assert_eq!(session, Session::Sending);
    assert_eq!(session.step(SessionEvent::Written), SessionAction::Receive);
    assert_eq!(session, Session::Waiting);
}

#[test]
fn envelopes_are_forwarded_one_at_a_time_in_order() {
    let (mut session, _) = Session::attach();
    let mut sent = Vec::new();
    for text in ["a", "b", "c"] {
        match session.step(envelope(text)) {
            SessionAction::Send(frame) => sent.push(frame),
            other => panic!("unexpected action {:?}", other),
        }
        assert_eq!(session.step(SessionEvent::Written), SessionAction::Receive);
    }
    assert_eq!(sent, vec!["a", "b", "c"]);
}

#[test]
fn lag_closes_the_session() {
    let (mut session, _) = Session::attach();
    assert_eq!(
        session.step(SessionEvent::Delivered(Delivery::Lagged(6))),
        SessionAction::Close(CloseReason::Lagged(6))
    );
    assert_eq!(session, Session::Closed(CloseReason::Lagged(6)));
}

#[test]
fn hub_end_closes_the_session_cleanly() {
    let (mut session, _) = Session::attach();
    assert_eq!(
        session.step(SessionEvent::Delivered(Delivery::Closed)),
        SessionAction::Close(CloseReason::HubClosed)
    );
    assert_eq!(session, Session::Closed(CloseReason::HubClosed));
}

#[test]
fn write_failure_closes_the_session() {
    let (mut session, _) = Session::attach();
    session.step(envelope("a"));
    assert_eq!(
        session.step(SessionEvent::WriteFailed),
        SessionAction::Close(CloseReason::ClientGone)
    );
    assert_eq!(session, Session::Closed(CloseReason::ClientGone));
}

#[test]
fn closed_session_stays_closed() {
    let (mut session, _) = Session::attach();
    session.step(SessionEvent::Delivered(Delivery::Lagged(2)));
    for event in [
        envelope("a"),
        SessionEvent::Written,
        SessionEvent::WriteFailed,
        SessionEvent::Delivered(Delivery::Closed),
    ] {
        assert_eq!(session.step(event), SessionAction::Close(CloseReason::Lagged(2)));
    }
}

#[test]
fn event_out_of_turn_closes_the_session() {
    let (mut waiting, _) = Session::attach();
    assert_eq!(
        waiting.step(SessionEvent::Written),
        SessionAction::Close(CloseReason::OutOfTurn)
    );

    let (mut sending, _) = Session::attach();
    sending.step(envelope("a"));
    assert_eq!(sending.step(envelope("b")), SessionAction::Close(CloseReason::OutOfTurn));
    assert_eq!(sending.step(SessionEvent::Written), SessionAction::Close(CloseReason::OutOfTurn));
}
