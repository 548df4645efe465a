use proxymore::body::{BodyEvent, BodyWrapper};
use proxymore::launch::PrintMode;
use proxymore::message::{tungstenite_to_wreq, Body, CloseFrame, WebsocketMessage, WsFailure, WsMessage};
use proxymore::relay::RelayEvent;
use proxymore::state::State;

fn socket() -> (State<()>, usize) {
    let mut s = State::new(PrintMode::Nothing);
    let id = s.new_websocket();
    (s, id)
}

fn last_error(s: &State<()>, id: usize) -> String {
    match s.subscribe_websocket(id).unwrap().pop() {
        Some(WebsocketMessage::Error(e)) => e,
        _ => panic!("no error"),
    }
}

#[test]
fn messages_go_on_and_are_recorded() {
    let (mut s, id) = socket();
    let step = s.relay(id, RelayEvent::Upstream(WsMessage::Text("a".to_string())), 5);
    assert!(matches!(step.forward, Some(WsMessage::Text(t)) if t == "a"));
    assert!(!step.stop);
    assert_eq!(step.news.unwrap().0, id);
    let step = s.relay(id, RelayEvent::Client(WsMessage::Binary(vec![9])), 6);
    assert!(matches!(step.forward, Some(WsMessage::Binary(b)) if b == vec![9]));
    assert!(!step.stop);
    let list = s.subscribe_websocket(id).unwrap();
    assert!(matches!(&list[0], WebsocketMessage::Data(d) if d.server_to_client && d.create == 5));
    assert!(matches!(
        &list[1],
        WebsocketMessage::Data(d) if !d.server_to_client && matches!(&d.body, Body::Bytes(b) if b == &vec![9])
    ));
}

#[test]
fn closing_stops_the_relay() {
    let (mut s, id) = socket();
    let close = || {
        WsMessage::Close(Some(CloseFrame { code: 1001, reason: "going".to_string() }))
    };
    for event in [RelayEvent::Upstream(close()), RelayEvent::Client(close())] {
        let step = s.relay(id, event, 1);
        assert!(step.stop);
        assert!(step.news.is_none());
        assert!(matches!(step.forward, Some(WsMessage::Close(Some(f))) if f.code == 1001));
    }
    let step = s.relay(id, RelayEvent::Upstream(WsMessage::Ping(vec![1])), 1);
    assert!(!step.stop && step.news.is_none() && step.forward.is_some());
    assert!(s.subscribe_websocket(id).unwrap().is_empty());
}

#[test]
fn failures_of_the_destination() {
    let (mut s, id) = socket();
    let step = s.relay(id, RelayEvent::UpstreamFailed("x".to_string()), 1);
    assert!(step.stop && matches!(step.forward, Some(WsMessage::Close(None))));
    assert_eq!(last_error(&s, id), "Upstream WS error: x");
    let step = s.relay(id, RelayEvent::UpstreamEnded, 1);
    assert!(step.stop && matches!(step.forward, Some(WsMessage::Close(None))));
    assert_eq!(last_error(&s, id), "Upstream WS closed");
    let step = s.relay(id, RelayEvent::UpstreamUnsent("y".to_string()), 1);
    assert!(step.stop && step.forward.is_none());
    assert_eq!(last_error(&s, id), "Upstream WS send error: y");
    let step = s.relay(id, RelayEvent::HandlingFailed("z".to_string()), 1);
    assert!(step.stop);
    assert_eq!(last_error(&s, id), "Failed to handle WebSocket: z");
    s.relay(id, RelayEvent::UpgradeFailed("w".to_string()), 1);
    assert_eq!(last_error(&s, id), "Failed to upgrade to WebSocket: w");
}

#[test]
fn failures_of_the_client() {
    let (mut s, id) = socket();
    let step = s.relay(id, RelayEvent::ClientFailed(WsFailure::AlreadyClosed, "x".to_string()), 1);
    assert!(step.stop && step.news.is_none() && matches!(step.forward, Some(WsMessage::Close(None))));
    let step = s.relay(id, RelayEvent::ClientUnsent(WsFailure::ConnectionClosed, "x".to_string()), 1);
    assert!(step.stop && step.news.is_none() && step.forward.is_none());
    assert!(s.subscribe_websocket(id).unwrap().is_empty());
    s.relay(id, RelayEvent::ClientFailed(WsFailure::Other, "x".to_string()), 1);
    assert_eq!(last_error(&s, id), "Client WS error: x");
    s.relay(id, RelayEvent::ClientUnsent(WsFailure::Other, "y".to_string()), 1);
    assert_eq!(last_error(&s, id), "Client WS send error: y");
    let step = s.relay(id, RelayEvent::Ended, 1);
    assert!(step.stop && step.news.is_none() && step.forward.is_none());
}

#[test]
fn raw_frames_close_the_destination() {
    let (mut s, id) = socket();
    let step = s.relay(id, RelayEvent::ToUpstream(WsMessage::Frame), 1);
    assert!(!step.stop && matches!(step.forward, Some(WsMessage::Close(None))));
    let step = s.relay(id, RelayEvent::ToUpstream(WsMessage::Text("t".to_string())), 1);
    assert!(!step.stop && matches!(step.forward, Some(WsMessage::Text(_))));
    assert!(matches!(tungstenite_to_wreq(WsMessage::Frame), WsMessage::Close(None)));
    assert!(matches!(tungstenite_to_wreq(WsMessage::Pong(vec![1])), WsMessage::Pong(_)));
}

#[test]
fn bodies_are_counted() {
    let mut body = BodyWrapper::new(Some(4));
    assert_eq!(body.done(), Some((4, 0)));
    assert!(body.pass(BodyEvent::Data(10)));
    assert!(!body.pass(BodyEvent::Trailers));
    assert!(body.pass(BodyEvent::Data(5)));
    assert!(!body.pass(BodyEvent::Failed));
    assert!(!body.pass(BodyEvent::End));
    assert_eq!(body.done(), Some((4, 15)));
    assert_eq!(BodyWrapper::new(None).done(), None);
}
