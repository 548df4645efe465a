use proxymore::edit::ModifiedTraffic;
use proxymore::launch::PrintMode;
use proxymore::message::{
    ignore_tungstenite_error, Body, CloseFrame, WebsocketMessage, WsFailure, WsMessage,
};
use proxymore::rules::{Rule, RuleAction, RuleMatcher};
use proxymore::state::{console_line, PendingPhase, PendingResolution, Printing, State};
use proxymore::traffic::{
    req_body_file_name, res_body_file_name, HttpVersion, Traffic,
};

fn traffic(gid: usize, valid: bool) -> Traffic {
    let mut t = Traffic::new(gid, &format!("http://a/{gid}"), "GET");
    t.check_match(valid);
    t
}

fn state() -> State<&'static str> {
    State::new(PrintMode::Oneline)
}

#[test]
fn exchanges_are_numbered_from_one() {
    let mut s = state();
    assert!(s.list_heads().is_empty());
    let head = s.add_traffic(traffic(70, true)).unwrap();
    assert_eq!((head.id, head.uri.as_str(), head.method.as_str()), (1, "http://a/70", "GET"));
    assert!(!head.pending);
    let (id, head) = s.add_traffic_early(&traffic(80, true));
    assert_eq!((id, head.id), (2, 2));
    assert_eq!(s.get_traffic(1).unwrap().gid, 70);
    assert_eq!(s.get_traffic(2).unwrap().gid, 80);
    assert!(s.get_traffic(0).is_none());
    assert!(s.get_traffic(3).is_none());
    let ids: Vec<usize> = s.list_heads().iter().map(|h| h.id).collect();
    assert_eq!(ids, vec![1, 2]);
    let gids: Vec<usize> = s.list_traffics().iter().map(|t| t.gid).collect();
    assert_eq!(gids, vec![70, 80]);
}

#[test]
fn filtered_exchanges_are_not_added() {
    let mut s = state();
    assert!(s.add_traffic(traffic(1, false)).is_none());
    assert!(s.list_heads().is_empty());
    let (id, _) = s.add_traffic_early(&traffic(1, false));
    assert_eq!(id, 1);
}

#[test]
fn filters_all_have_to_agree() {
    let mut t = Traffic::new(1, "u", "GET");
    assert!(t.valid);
    t.check_match(false);
    t.check_match(true);
    assert!(!t.valid);
}

#[test]
fn updates_keep_the_number() {
    let mut s = state();
    s.add_traffic(traffic(5, true));
    s.add_traffic(traffic(6, true));
    let mut t = traffic(6, true);
    t.set_res_status(404);
    let head = s.update_traffic(&t).unwrap();
    assert_eq!((head.id, head.status), (2, Some(404)));
    assert_eq!(s.get_traffic(1).unwrap().status, None);
    assert_eq!(s.get_traffic(2).unwrap().status, Some(404));
    assert!(s.update_traffic(&traffic(7, true)).is_none());
    assert_eq!(s.list_heads().len(), 2);
    let (id, t) = s.get_traffic_by_gid(6).unwrap();
    assert_eq!((id, t.gid), (2, 6));
    assert!(s.get_traffic_by_gid(7).is_none());
}

#[test]
fn the_first_of_two_with_one_gid_is_found() {
    let mut s = state();
    s.add_traffic(traffic(5, true));
    s.add_traffic(traffic(5, true));
    assert_eq!(s.get_traffic_by_gid(5).unwrap().0, 1);
    let done = s.done_traffic(5, 3).unwrap();
    assert_eq!(done.head.id, 1);
    assert_eq!(s.get_traffic(2).unwrap().res_body_size, None);
}

#[test]
fn done_exchanges_are_printed() {
    let mut s = state();
    s.add_traffic(traffic(5, true));
    let done = s.done_traffic(5, 12).unwrap();
    assert_eq!((done.head.id, done.head.size), (1, Some(12)));
    assert_eq!(done.printing.output("GET x").as_deref(), Some("# GET x"));
    assert_eq!(console_line("a"), "# a");
    assert!(matches!(done.printing, Printing::Oneline(t) if t.res_body_size == Some(12)));
    assert!(s.done_traffic(6, 12).is_none());
    let mut s: State<()> = State::new(PrintMode::Nothing);
    s.add_traffic(traffic(5, true));
    let printing = s.done_traffic(5, 1).unwrap().printing;
    assert!(matches!(printing, Printing::Nothing));
    assert_eq!(printing.output("x"), None);
    let mut s: State<()> = State::new(PrintMode::Markdown);
    s.add_traffic(traffic(5, true));
    let printing = s.done_traffic(5, 1).unwrap().printing;
    assert!(matches!(printing, Printing::Markdown(_)));
    assert_eq!(printing.output("x").as_deref(), Some("x"));
}

#[test]
fn rules_come_and_go() {
    let mut s = state();
    let rule = |action| Rule { matcher: RuleMatcher::Any, uri_pattern: None, action };
    s.add_rule(rule(RuleAction::PauseToEditRequest));
    s.add_rule(rule(RuleAction::PauseToEditResponse));
    assert_eq!(s.match_rules("GET", "http://a/", false), Some(RuleAction::PauseToEditRequest));
    s.remove_rule(2);
    assert_eq!(s.list_rules().len(), 2);
    s.remove_rule(0);
    assert_eq!(s.match_rules("GET", "http://a/", false), Some(RuleAction::PauseToEditResponse));
    s.remove_rule(0);
    assert_eq!(s.match_rules("GET", "http://a/", false), None);
    s.add_rule(Rule {
        matcher: RuleMatcher::Any,
        uri_pattern: Some("http://a/*".to_string()),
        action: RuleAction::PassToDestination,
    });
    assert_eq!(s.match_rules("GET", "http://a/x", false), Some(RuleAction::PassToDestination));
    assert_eq!(s.match_rules("GET", "http://b/x", false), None);
}

#[test]
fn what_is_held_back_is_resolved_once() {
    let mut s = state();
    s.add_traffic(traffic(5, true));
    let head = s.add_pending(5, PendingPhase::Request, "waiter").unwrap();
    assert_eq!((head.id, head.pending), (1, true));
    assert_eq!(s.is_pending(5), Some(PendingPhase::Request));
    let edit = ModifiedTraffic { headers: None, body: Some(vec![7]) };
    let sent = s.resolve_pending(5, PendingResolution::Continue(Some(edit))).unwrap();
    assert_eq!(sent.sender, "waiter");
    assert!(matches!(
        sent.resolution,
        PendingResolution::Continue(Some(ModifiedTraffic { headers: None, body: Some(b) })) if b == vec![7]
    ));
    let notice = sent.notice.unwrap();
    assert_eq!((notice.id, notice.pending), (1, false));
    assert_eq!(s.is_pending(5), None);
    assert!(s.resolve_pending(5, PendingResolution::Cancel).is_none());
    assert!(s.add_pending(9, PendingPhase::Response, "nobody").is_none());
    assert_eq!(s.is_pending(9), Some(PendingPhase::Response));
    assert_eq!(PendingPhase::Request.to_string(), "Request");
    assert_eq!(PendingPhase::Response.to_string(), "Response");
}

#[test]
fn everything_held_back_is_let_go() {
    let mut s = state();
    s.add_pending(1, PendingPhase::Request, "a");
    s.add_pending(2, PendingPhase::Response, "b");
    s.add_pending(1, PendingPhase::Response, "c");
    let mut sent: Vec<(usize, &str, bool)> = s
        .cancel_all_pending()
        .into_iter()
        .map(|(gid, r)| {
            assert!(matches!(r.resolution, PendingResolution::Continue(None)));
            (gid, r.sender, r.notice.is_none())
        })
        .collect();
    sent.sort();
    assert_eq!(sent, vec![(1, "c", true), (2, "b", true)]);
    assert_eq!(s.is_pending(1), None);
    assert!(s.cancel_all_pending().is_empty());
}

#[test]
fn websockets_keep_their_messages() {
    let mut s = state();
    assert_eq!(s.new_websocket(), 1);
    assert_eq!(s.new_websocket(), 2);
    let (id, m) = s
        .add_websocket_message(2, &WsMessage::Text("hi".to_string()), true, 99)
        .unwrap();
    assert_eq!(id, 2);
    assert!(matches!(
        m,
        WebsocketMessage::Data(d) if d.create == 99 && d.server_to_client && matches!(&d.body, Body::Text(t) if t == "hi")
    ));
    s.add_websocket_message(2, &WsMessage::Binary(vec![1, 2]), false, 100).unwrap();
    for m in [
        WsMessage::Ping(vec![]),
        WsMessage::Pong(vec![]),
        WsMessage::Close(Some(CloseFrame { code: 1000, reason: "bye".to_string() })),
        WsMessage::Frame,
    ] {
        assert!(s.add_websocket_message(2, &m, false, 101).is_none());
    }
    s.add_websocket_error(2, "broken".to_string()).unwrap();
    assert!(s.add_websocket_error(3, "nowhere".to_string()).is_none());
    assert!(s.add_websocket_message(0, &WsMessage::Text("x".to_string()), true, 1).is_none());
    let list = s.subscribe_websocket(2).unwrap();
    assert_eq!(list.len(), 3);
    assert!(matches!(
        &list[1],
        WebsocketMessage::Data(d) if !d.server_to_client && matches!(&d.body, Body::Bytes(b) if b == &vec![1, 2])
    ));
    assert!(matches!(&list[2], WebsocketMessage::Error(e) if e == "broken"));
    assert!(s.subscribe_websocket(1).unwrap().is_empty());
    assert!(s.subscribe_websocket(3).is_none());
}

#[test]
fn failures_of_clients_that_have_gone() {
    assert!(ignore_tungstenite_error(WsFailure::ConnectionClosed));
    assert!(ignore_tungstenite_error(WsFailure::AlreadyClosed));
    assert!(ignore_tungstenite_error(WsFailure::ResetWithoutClosingHandshake));
    assert!(!ignore_tungstenite_error(WsFailure::Other));
}

#[test]
fn records_take_in_what_happens() {
    let mut t = Traffic::new(3, "http://a/", "POST");
    let mut m = http::HeaderMap::new();
    m.append("x", "1".parse().unwrap());
    m.append("x", "2".parse().unwrap());
    t.set_req_headers(&m);
    t.set_res_headers(&m);
    t.set_res_status(201);
    t.set_http_version(HttpVersion::Http2);
    t.set_req_body_file("/tmp/q");
    t.set_res_body_file("/tmp/s");
    t.done_res_body(8);
    t.set_websocket_id(4);
    t.set_start_time(-1);
    t.add_error("one".to_string());
    t.add_error("two".to_string());
    let list = t.req_headers.clone().unwrap();
    assert_eq!(list.len(), 2);
    assert_eq!((list[0].name.as_str(), list[0].value.clone()), ("x", b"1".to_vec()));
    assert_eq!(list[1].value, b"2".to_vec());
    assert_eq!(t.res_headers.clone().unwrap().len(), 2);
    assert_eq!(t.errors, vec!["one".to_string(), "two".to_string()]);
    let head = t.head(9);
    assert_eq!(
        (head.id, head.status, head.size, head.websocket_id, head.pending),
        (9, Some(201), Some(8), Some(4), false)
    );
    assert_eq!(t.http_version, Some(HttpVersion::Http2));
    assert_eq!(t.start_time, Some(-1));
    let copy = t.clone();
    assert_eq!(copy.req_body_file, Some("/tmp/q".to_string()));
    assert_eq!(copy.errors, t.errors);
}

#[test]
fn files_for_bodies() {
    assert_eq!(req_body_file_name(7, ".json"), "00007-req.json");
    assert_eq!(res_body_file_name(123456, ".html", ".gz"), "123456-res.html.gz");
    assert_ne!(req_body_file_name(7, ""), res_body_file_name(7, "", ""));
    assert_ne!(req_body_file_name(7, ""), req_body_file_name(70, ""));
}
