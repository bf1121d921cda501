use feedhub::adapter::{Adapter, AdapterAction, Frame, StopReason, UpstreamEvent};
use feedhub::descriptor::FeedDescriptor;
use feedhub::envelope::split;
use feedhub::hub::{Cursor, Hub};
use feedhub::session::{CloseReason, Session, SessionAction, SessionEvent};

/// Drives an adapter over scripted upstream events, publishing to the hub as
/// the adapter asks. Returns the frames sent upstream and the reason for
/// which the adapter stopped, if it did.
fn drive_adapter(
    adapter: &mut Adapter,
    first: AdapterAction,
    events: Vec<UpstreamEvent>,
    hub: &Hub,
) -> (Vec<String>, Option<StopReason>) {
    let mut sent = Vec::new();
    let mut action = first;
    let mut events = events.into_iter();
    loop {
        match action {
            AdapterAction::Stop(reason) => return (sent, Some(reason)),
            AdapterAction::Send(frame) => sent.push(frame),
            AdapterAction::Publish(envelope) => {
                hub.publish(envelope);
            }
            AdapterAction::Connect(_) | AdapterAction::Read => {}
        }
        match events.next() {
            Some(event) => action = adapter.step(event),
            None => return (sent, None),
        }
    }
}

/// Drives a session over what is pending on its cursor, with a client that
/// accepts every frame. Returns the frames written and the reason for which
/// the session closed, if it did.
fn drive_session(session: &mut Session, cursor: &mut Cursor) -> (Vec<String>, Option<CloseReason>) {
    let mut written = Vec::new();
    let mut action = match *session {
        Session::Closed(reason) => SessionAction::Close(reason),
        _ => SessionAction::Receive,
    };
    loop {
        action = match action {
            SessionAction::Close(reason) => return (written, Some(reason)),
            SessionAction::Receive => match session.take_pending(cursor) {
                Some(decided) => decided,
                None => return (written, None),
            },
            SessionAction::Send(frame) => {
                written.push(frame);
                session.step(SessionEvent::Written)
            }
        };
    }
}

fn plain_feed(exchange: &str) -> FeedDescriptor {
    FeedDescriptor::new("wss://example.com/feed".to_string(), exchange.to_string(), vec![])
        .unwrap()
}

fn texts(payloads: &[&str]) -> Vec<UpstreamEvent> {
    payloads.iter().map(|p| UpstreamEvent::Received(Frame::Text(p.to_string()))).collect()
}

fn connected(exchange: &str) -> Adapter {
    let (mut adapter, _) = Adapter::open(plain_feed(exchange));
    assert_eq!(adapter.step(UpstreamEvent::Connected), AdapterAction::Read);
    adapter
}

#[test]
fn two_sessions_receive_everything_an_adapter_publishes() {
    let hub = Hub::new(8).unwrap();
    let mut cursors = [hub.subscribe(), hub.subscribe()];
    let mut adapter = connected("x");
    drive_adapter(&mut adapter, AdapterAction::Read, texts(&["1", "2", "3", "4"]), &hub);
    for cursor in cursors.iter_mut() {
        let (mut session, _) = Session::attach();
        let (written, closed) = drive_session(&mut session, cursor);
        assert_eq!(
            written,
            vec![
                "{\"exchange\":\"x\",\"data\":1}",
                "{\"exchange\":\"x\",\"data\":2}",
                "{\"exchange\":\"x\",\"data\":3}",
                "{\"exchange\":\"x\",\"data\":4}",
            ]
        );
        assert_eq!(closed, None);
    }
}

#[test]
fn session_attached_late_receives_only_the_fourth() {
    let hub = Hub::new(8).unwrap();
    let mut adapter = connected("x");
    drive_adapter(&mut adapter, AdapterAction::Read, texts(&["1", "2", "3"]), &hub);
    let mut cursor = hub.subscribe();
    let (mut session, _) = Session::attach();
    drive_adapter(&mut adapter, AdapterAction::Read, texts(&["4"]), &hub);
    let (written, closed) = drive_session(&mut session, &mut cursor);
    assert_eq!(written, vec!["{\"exchange\":\"x\",\"data\":4}"]);
    assert_eq!(closed, None);
}

#[test]
fn slow_session_is_closed_on_lag_while_the_fast_one_gets_all() {
    let hub = Hub::new(4).unwrap();
    let mut slow_cursor = hub.subscribe();
    let mut fast_cursor = hub.subscribe();
    let (mut slow, _) = Session::attach();
    let (mut fast, _) = Session::attach();
    let mut adapter = connected("x");
    let mut fast_written = Vec::new();
    for n in 0..10 {
        drive_adapter(&mut adapter, AdapterAction::Read, texts(&[&n.to_string()]), &hub);
        let (written, closed) = drive_session(&mut fast, &mut fast_cursor);
        assert_eq!(closed, None);
        fast_written.extend(written);
    }
    let expected: Vec<String> =
        (0..10).map(|n| format!("{{\"exchange\":\"x\",\"data\":{}}}", n)).collect();
    assert_eq!(fast_written, expected);

    let (written, closed) = drive_session(&mut slow, &mut slow_cursor);
    assert!(written.is_empty());
    match closed {
        Some(CloseReason::Lagged(skipped)) => assert!(skipped >= 6),
        other => panic!("expected the session to close on lag, got {:?}", other),
    }
    assert_eq!(drive_session(&mut slow, &mut slow_cursor), (vec![], closed));
}

#[test]
fn death_of_one_adapter_leaves_the_other_running() {
    let hub = Hub::new(64).unwrap();
    let mut cursor = hub.subscribe();
    let (mut session, _) = Session::attach();
    let mut a = connected("a");
    let mut b = connected("b");
    let hub_a = hub.handle();
    let hub_b = hub.handle();

    for n in 0..5 {
        let payload = n.to_string();
        drive_adapter(&mut a, AdapterAction::Read, texts(&[&payload]), &hub_a);
        drive_adapter(&mut b, AdapterAction::Read, texts(&[&payload]), &hub_b);
    }
    let (_, stopped) =
        drive_adapter(&mut a, AdapterAction::Read, vec![UpstreamEvent::Ended], &hub_a);
    assert_eq!(stopped, Some(StopReason::UpstreamClosed));
    drop(hub_a);
    let (_, stopped) =
        drive_adapter(&mut a, AdapterAction::Read, texts(&["ignored"]), &hub);
    assert_eq!(stopped, Some(StopReason::UpstreamClosed));
    for n in 5..12 {
        drive_adapter(&mut b, AdapterAction::Read, texts(&[&n.to_string()]), &hub_b);
    }

    let (written, closed) = drive_session(&mut session, &mut cursor);
    assert_eq!(closed, None);
    let from = |id: &str| -> Vec<String> {
        written
            .iter()
            .map(|frame| split(frame).unwrap())
            .filter(|(exchange, _)| exchange == id)
            .map(|(_, data)| data)
            .collect()
    };
    assert_eq!(from("a"), vec!["0", "1", "2", "3", "4"]);
    let all_of_b: Vec<String> = (0..12).map(|n| n.to_string()).collect();
    assert_eq!(from("b"), all_of_b);
    assert_eq!(written.len(), 17);
}

#[test]
fn bybit_adapter_sends_the_subscription_before_anything_else() {
    let hub = Hub::new(8).unwrap();
    let (mut adapter, first) = Adapter::open(FeedDescriptor::bybit());
    assert_eq!(
        first,
        AdapterAction::Connect("wss://stream.bybit.com/v5/public/linear".to_string())
    );
    let (sent, stopped) = drive_adapter(
        &mut adapter,
        first,
        vec![UpstreamEvent::Connected, UpstreamEvent::Sent],
        &hub,
    );
    assert_eq!(sent, vec!["{\"op\":\"subscribe\",\"args\":[\"publicTrade.BTCUSDT\"]}"]);
    assert_eq!(sent[0].as_bytes(), b"{\"op\":\"subscribe\",\"args\":[\"publicTrade.BTCUSDT\"]}");
    assert_eq!(stopped, None);
}

#[test]
fn payload_reaches_the_client_byte_for_byte() {
    let hub = Hub::new(8).unwrap();
    let mut cursor = hub.subscribe();
    let (mut session, _) = Session::attach();
    let (mut adapter, first) = Adapter::open(FeedDescriptor::binance());
    let upstream = "{\"p\":\"0.10\",\"q\":\"1.000\"}";
    let mut events = vec![UpstreamEvent::Connected];
    events.extend(texts(&[upstream]));
    drive_adapter(&mut adapter, first, events, &hub);
    let (written, _) = drive_session(&mut session, &mut cursor);
    assert_eq!(
        written,
        vec!["{\"exchange\":\"binance\",\"data\":{\"p\":\"0.10\",\"q\":\"1.000\"}}"]
    );
    assert_eq!(split(&written[0]), Some(("binance".to_string(), upstream.to_string())));
}

#[test]
fn advance_publishes_and_asks_for_the_next_read() {
    let hub = Hub::new(8).unwrap();
    let mut cursor = hub.subscribe();
    let mut adapter = connected("x");
    for event in texts(&["1", "2"]) {
        assert_eq!(adapter.advance(event, &hub), AdapterAction::Read);
    }
    assert_eq!(
        adapter.advance(UpstreamEvent::Received(Frame::Other), &hub),
        AdapterAction::Read
    );
    assert_eq!(
        adapter.advance(UpstreamEvent::Ended, &hub),
        AdapterAction::Stop(StopReason::UpstreamClosed)
    );
    assert_eq!(
        adapter.advance(texts(&["3"]).remove(0), &hub),
        AdapterAction::Stop(StopReason::UpstreamClosed)
    );
    let (mut session, _) = Session::attach();
    let (written, closed) = drive_session(&mut session, &mut cursor);
    assert_eq!(
        written,
        vec!["{\"exchange\":\"x\",\"data\":1}", "{\"exchange\":\"x\",\"data\":2}"]
    );
    assert_eq!(closed, None);
}

#[test]
fn advance_follows_step_through_the_handshake() {
    let hub = Hub::new(8).unwrap();
    let (mut adapter, first) = Adapter::open(FeedDescriptor::bybit());
    assert_eq!(
        first,
        AdapterAction::Connect("wss://stream.bybit.com/v5/public/linear".to_string())
    );
    assert_eq!(
        adapter.advance(UpstreamEvent::Connected, &hub),
        AdapterAction::Send(
            "{\"op\":\"subscribe\",\"args\":[\"publicTrade.BTCUSDT\"]}".to_string()
        )
    );
    assert_eq!(adapter.advance(UpstreamEvent::Sent, &hub), AdapterAction::Read);
}

#[test]
fn session_ends_cleanly_when_every_publisher_is_gone() {
    let hub = Hub::new(8).unwrap();
    let mut cursor = hub.subscribe();
    let (mut session, _) = Session::attach();
    hub.publish("last".to_string());
    drop(hub);
    let (written, closed) = drive_session(&mut session, &mut cursor);
    assert_eq!(written, vec!["last"]);
    assert_eq!(closed, Some(CloseReason::HubClosed));
}

#[test]
fn take_pending_leaves_a_session_alone_that_is_not_waiting() {
    let hub = Hub::new(8).unwrap();
    let mut cursor = hub.subscribe();
    hub.publish("a".to_string());
    hub.publish("b".to_string());
    let (mut session, _) = Session::attach();
    assert_eq!(session.take_pending(&mut cursor), Some(SessionAction::Send("a".to_string())));
    assert_eq!(session, Session::Sending);
    assert_eq!(session.take_pending(&mut cursor), None);
    assert_eq!(session, Session::Sending);
    assert_eq!(session.step(SessionEvent::Written), SessionAction::Receive);
    assert_eq!(session.take_pending(&mut cursor), Some(SessionAction::Send("b".to_string())));
    assert_eq!(session.step(SessionEvent::Written), SessionAction::Receive);
    assert_eq!(session.take_pending(&mut cursor), None);
    assert_eq!(session, Session::Waiting);
}

#[test]
fn failed_write_ends_the_session() {
    let hub = Hub::new(8).unwrap();
    let mut cursor = hub.subscribe();
    hub.publish("a".to_string());
    hub.publish("b".to_string());
    let (mut session, _) = Session::attach();
    let delivery = cursor.poll().unwrap();
    assert_eq!(
        session.step(SessionEvent::Delivered(delivery)),
        SessionAction::Send("a".to_string())
    );
    assert_eq!(
        session.step(SessionEvent::WriteFailed),
        SessionAction::Close(CloseReason::ClientGone)
    );
    assert_eq!(drive_session(&mut session, &mut cursor), (vec![], Some(CloseReason::ClientGone)));
}
