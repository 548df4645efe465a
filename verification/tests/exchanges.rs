use http::HeaderMap;
use proxymore::edit::ModifiedTraffic;
use proxymore::exchange::{
    await_pending, begin_given, buffer_failed, keep_buffered, outgoing, resume_response, title, Begun,
    Exchange, Incoming, Kept, Responding,
};
use proxymore::response::{ResBody, Response};
use proxymore::rules::{Rule, RuleAction, RuleMatcher};
use proxymore::server::{CertificateAuthority, Pages, Server, ServerBuilder};
use proxymore::state::PendingResolution;
use proxymore::traffic::{HttpVersion, Traffic};
use proxymore::tunnel::{connect_response, sniff, Protocol, TunnelEnd};
use proxymore::uri::{tunnel_uri, websocket_scheme, websocket_uri};

fn server(mime_filters: &[&str]) -> Server<&'static str> {
    ServerBuilder::new(
        CertificateAuthority { cert_pem: String::new() },
        Pages { web_index: String::new(), cert_index: String::new() },
    )
    .mime_filters(mime_filters.iter().map(|s| s.to_string()).collect())
    .build("/tmp".to_string())
}

fn map(fields: &[(&'static str, &str)]) -> HeaderMap {
    let mut m = HeaderMap::new();
    for (name, value) in fields {
        m.append(*name, value.parse().unwrap());
    }
    m
}

fn text(res: &Response) -> &str {
    match &res.body {
        ResBody::Text(s) => s,
        other => panic!("{other:?}"),
    }
}

fn rule(action: RuleAction) -> Rule {
    Rule { matcher: RuleMatcher::Any, uri_pattern: Some("http://a/*".to_string()), action }
}

fn edit(headers: Option<&[(&str, &str)]>, body: Option<&[u8]>) -> Option<PendingResolution> {
    Some(PendingResolution::Continue(Some(ModifiedTraffic {
        headers: headers
            .map(|l| l.iter().map(|(n, v)| (n.to_string(), v.to_string())).collect()),
        body: body.map(|b| b.to_vec()),
    })))
}

fn forward(begun: Begun) -> Exchange {
    match begun {
        Begun::Forward(x) => x,
        other => panic!("{other:?}"),
    }
}

#[test]
fn titles() {
    assert_eq!(title("GET", "http://a/"), "GET http://a/");
}

#[test]
fn plain_requests_go_on() {
    let s = server(&[]);
    let x = forward(s.begin(3, "http://a/x", "GET", map(&[("a", "1")]), true));
    assert_eq!(x.traffic.gid, 3);
    assert!(x.traffic.valid);
    assert_eq!(x.traffic.req_headers.as_ref().unwrap().len(), 1);
    assert!(x.action.is_none() && x.body.is_none());
    assert!(!forward(s.begin(3, "http://a/x", "GET", map(&[]), false)).traffic.valid);
}

#[test]
fn tunnels_are_recorded_only_with_filters() {
    match server(&[]).begin(1, "a:443", "CONNECT", map(&[]), true) {
        Begun::Connect(t) => assert!(!t.valid),
        other => panic!("{other:?}"),
    }
    match server(&["text/"]).begin(1, "a:443", "CONNECT", map(&[]), true) {
        Begun::Connect(t) => assert!(t.valid),
        other => panic!("{other:?}"),
    }
}

#[test]
fn upgrades_are_never_held_back() {
    let mut s = server(&[]);
    s.state.add_rule(rule(RuleAction::PauseToEditRequestAndResponse));
    let upgrade = map(&[("connection", "keep-alive, Upgrade"), ("upgrade", "WebSocket")]);
    assert!(matches!(
        s.begin(1, "http://a/x", "GET", upgrade, true),
        Begun::Upgrade(x) if x.action.is_none()
    ));
    assert!(matches!(
        s.begin(1, "http://a/x", "GET", map(&[("upgrade", "websocket")]), true),
        Begun::Forward(_)
    ));
}

#[test]
fn rules_are_matched_at_the_beginning() {
    let mut s = server(&[]);
    s.state.add_rule(rule(RuleAction::PauseToEditRequest));
    let x = forward(s.begin(7, "http://a/x", "GET", map(&[]), true));
    assert_eq!(x.action, Some(RuleAction::PauseToEditRequest));
    let x = forward(s.begin(7, "http://b/x", "GET", map(&[]), true));
    assert_eq!(x.action, None);
    assert!(matches!(s.begin(7, "http://a/x", "CONNECT", map(&[]), true), Begun::Connect(_)));
}

#[test]
fn held_requests_are_edited() {
    let mut s = server(&[]);
    s.state.add_rule(rule(RuleAction::PauseToEditRequest));
    let fields = map(&[("a", "1"), ("content-length", "3")]);
    let x = forward(s.begin(7, "http://a/x", "GET", fields, true));
    s.state.add_traffic_early(&x.traffic);
    let (x, notice) =
        s.resume_request(x, edit(Some(&[("B", "2"), ("Content-Length", "9")]), Some(b"new"))).unwrap();
    assert_eq!(notice.unwrap().id, 1);
    assert_eq!(x.body, Some(b"new".to_vec()));
    assert_eq!(x.headers, map(&[("b", "2")]));
    assert_eq!(s.state.get_traffic(1).unwrap().req_headers.unwrap()[0].name, "b");
    let out = outgoing(&x);
    assert_eq!(out.headers.len(), 1);
    assert_eq!(out.body, Some(b"new".to_vec()));
}

#[test]
fn held_requests_go_on_or_are_given_up() {
    let mut s = server(&[]);
    let t = Traffic::new(7, "http://a/x", "GET");
    let x = forward(begin_given(
        t,
        map(&[("a", "1")]),
        false,
        false,
        Some(RuleAction::PauseToEditRequestAndResponse),
    ));
    let (x, notice) = s.resume_request(x, Some(PendingResolution::Continue(None))).unwrap();
    assert!(notice.is_none() && x.body.is_none());
    assert_eq!(x.headers, map(&[("a", "1")]));
    let res = s.resume_request(x, Some(PendingResolution::Cancel)).unwrap_err();
    assert_eq!((res.status, text(&res)), (504, "Rule: cancelled or timed out"));
    let x = forward(begin_given(Traffic::new(8, "u", "GET"), map(&[]), false, false, None));
    let res = s.resume_request(x, None).unwrap_err();
    assert_eq!(res.status, 504);
}

#[test]
fn what_a_wait_comes_to() {
    assert!(matches!(await_pending(Some(PendingResolution::Continue(None))), Ok(None)));
    assert!(matches!(await_pending(edit(None, Some(b"x"))), Ok(Some(m)) if m.body == Some(b"x".to_vec())));
    assert_eq!(await_pending(Some(PendingResolution::Cancel)).unwrap_err().status, 504);
    assert_eq!(await_pending(None).unwrap_err().status, 504);
    let res = buffer_failed();
    assert_eq!((res.status, text(&res)), (504, "Failed to buffer response body"));
}

#[test]
fn bodies_of_requests_are_kept() {
    let mut s = server(&[]);
    let x = forward(s.begin(7, "http://a/x", "GET", map(&[]), true));
    let x = s.keep_request(x, Kept::At("/tmp/f".to_string())).unwrap();
    assert_eq!(x.traffic.req_body_file.as_deref(), Some("/tmp/f"));
    let x = s.keep_request(x, Kept::No).unwrap();
    let failure = s.keep_request(x, Kept::Failed("/tmp/f".to_string())).unwrap_err();
    assert_eq!(failure.response.status, 500);
    assert!(matches!(failure.response.body, ResBody::Empty));
    assert_eq!(failure.done, (7, 0));
    assert_eq!(failure.notice.unwrap().id, 1);
    assert_eq!(
        s.state.get_traffic(1).unwrap().errors,
        vec!["Failed to create file '/tmp/f' to store request body".to_string()]
    );
}

#[test]
fn failures_are_recorded() {
    let mut s = server(&[]);
    let failure = s.internal_server_error("no route".to_string(), Traffic::new(5, "u", "GET"));
    assert_eq!((failure.response.status, failure.done), (500, (5, 0)));
    assert_eq!(s.state.get_traffic(1).unwrap().errors, vec!["no route".to_string()]);
    let mut t = Traffic::new(6, "u", "GET");
    t.check_match(false);
    assert!(s.internal_server_error("x".to_string(), t).notice.is_none());
    assert_eq!(s.state.list_heads().len(), 1);
}

fn incoming(fields: &[(&'static str, &str)]) -> Incoming {
    Incoming { status: 203, version: HttpVersion::Http2, headers: map(fields) }
}

#[test]
fn responses_are_passed_on() {
    let mut s = server(&[]);
    let t = Traffic::new(4, "http://a/", "GET");
    let fields = [("set-cookie", "a"), ("set-cookie", "b"), ("content-encoding", "gzip")];
    let x = match s.begin_response(t, incoming(&fields), true, &None) {
        Responding::Pass(x) => x,
        other => panic!("{other:?}"),
    };
    assert_eq!(x.encoding, "gzip");
    assert_eq!(x.traffic.res_headers.as_ref().unwrap().len(), 3);
    let (res, notice) = s.pass_response(x, Kept::At("/tmp/r".to_string())).unwrap();
    assert_eq!(res.status, 203);
    assert_eq!(res.headers, map(&[("set-cookie", "b"), ("content-encoding", "gzip")]));
    assert!(matches!(res.body, ResBody::Destination));
    assert_eq!((notice.as_ref().unwrap().id, notice.unwrap().status), (1, Some(203)));
    let t = s.state.get_traffic(1).unwrap();
    assert_eq!(t.res_body_file.as_deref(), Some("/tmp/r"));
    assert_eq!(t.http_version, Some(HttpVersion::Http2));
}

#[test]
fn responses_that_are_filtered_or_fail() {
    let mut s = server(&["text/"]);
    let t = Traffic::new(4, "http://a/", "GET");
    let x = match s.begin_response(t, incoming(&[]), false, &Some(RuleAction::PauseToEditRequest)) {
        Responding::Pass(x) => x,
        other => panic!("{other:?}"),
    };
    assert!(s.pass_response(x, Kept::No).unwrap().1.is_none());
    assert!(s.state.list_heads().is_empty());
    let t = Traffic::new(5, "http://a/", "GET");
    let x = match s.begin_response(t, incoming(&[]), true, &None) {
        Responding::Pass(x) => x,
        other => panic!("{other:?}"),
    };
    let failure = s.pass_response(x, Kept::Failed("/f".to_string())).unwrap_err();
    assert_eq!(failure.done, (5, 0));
    assert_eq!(
        s.state.get_traffic(1).unwrap().errors,
        vec!["Failed to create file '/f' to store response body".to_string()]
    );
}

#[test]
fn responses_are_held_back() {
    let s = server(&[]);
    let t = Traffic::new(4, "http://a/", "GET");
    let action = Some(RuleAction::PauseToEditResponse);
    let mut x = match s.begin_response(t, incoming(&[("a", "1"), ("content-length", "3")]), true, &action) {
        Responding::Hold(x) => x,
        other => panic!("{other:?}"),
    };
    keep_buffered(&mut x.traffic, &Kept::At("/tmp/r".to_string()), 3);
    assert_eq!(x.traffic.res_body_size, Some(3));
    assert_eq!(x.traffic.res_body_file.as_deref(), Some("/tmp/r"));
    keep_buffered(&mut x.traffic, &Kept::Failed("/g".to_string()), 9);
    assert_eq!(x.traffic.res_body_size, Some(3));
    let res = resume_response(x.response, b"abc".to_vec(), edit(None, Some(b"edited")));
    assert!(matches!(&res.body, ResBody::Bytes(b) if b == b"edited"));
    assert_eq!(res.headers, map(&[("a", "1")]));
    assert_eq!(res.status, 203);
}

#[test]
fn held_responses_go_on_or_are_given_up() {
    let res = resume_response(
        Response::bare(201),
        b"abc".to_vec(),
        Some(PendingResolution::Continue(None)),
    );
    assert_eq!(res.status, 201);
    assert!(matches!(&res.body, ResBody::Bytes(b) if b == b"abc"));
    let res = resume_response(Response::bare(201), b"abc".to_vec(), edit(Some(&[("x", "y")]), None));
    assert!(matches!(&res.body, ResBody::Bytes(b) if b == b"abc"));
    assert_eq!(res.headers, map(&[("x", "y")]));
    let res = resume_response(Response::bare(201), b"abc".to_vec(), None);
    assert_eq!((res.status, text(&res)), (504, "Rule: cancelled or timed out"));
}

#[test]
fn uris_of_websockets() {
    let ok = |s: &str| websocket_uri(s).unwrap().unwrap();
    assert_eq!(ok("http://a.com/x?y"), "ws://a.com/x?y");
    assert_eq!(ok("https://a.com:8443/"), "wss://a.com:8443/");
    assert_eq!(ok("HTTP://a.com"), "ws://a.com/");
    assert_eq!(ok("http://a.com?y"), "ws://a.com/?y");
    assert_eq!(ok("ws://a.com/"), "wss://a.com/");
    assert_eq!(websocket_uri("/x").unwrap().unwrap_err(), "authority missing");
    assert!(websocket_uri("not a uri").is_none());
    assert_eq!(websocket_scheme(&None), "ws");
    assert_eq!(websocket_scheme(&Some("http".to_string())), "ws");
    assert_eq!(websocket_scheme(&Some("https".to_string())), "wss");
}

#[test]
fn uris_inside_of_tunnels() {
    let f = |uri: &str, version| tunnel_uri(uri, version, "https", "a.com:443");
    assert_eq!(f("/x?y", HttpVersion::Http11).unwrap().unwrap(), "https://a.com:443/x?y");
    assert_eq!(f("/", HttpVersion::Http10).unwrap().unwrap(), "https://a.com:443/");
    assert_eq!(
        f("http://b.com/z", HttpVersion::Http11).unwrap().unwrap(),
        "https://a.com:443/z"
    );
    assert_eq!(f("https://b.com/z", HttpVersion::Http2).unwrap().unwrap(), "https://b.com/z");
    assert!(f("b.com:443", HttpVersion::Http11).unwrap().is_err());
    assert!(f("a b", HttpVersion::Http11).is_none());
}

#[test]
fn upgrades_open_websockets() {
    let mut s = server(&[]);
    let (uri, t) = s.upgrade_uri(Traffic::new(1, "u", "GET"), "http://a/x").unwrap().unwrap();
    assert_eq!(uri, "ws://a/x");
    let (t, id) = s.upgrade(t, 77, None).unwrap();
    assert_eq!((id, t.websocket_id, t.start_time), (1, Some(1), Some(77)));
    assert!(s.state.subscribe_websocket(1).unwrap().is_empty());
    assert!(s.state.list_heads().is_empty());
    assert!(s.upgrade_uri(Traffic::new(1, "u", "GET"), "not a uri").is_none());
    let failure = s.upgrade_uri(Traffic::new(2, "u", "GET"), "/x").unwrap().unwrap_err();
    assert_eq!(failure.done, (2, 0));
    assert_eq!(
        s.state.get_traffic(1).unwrap().errors,
        vec!["Invalid uri, authority missing".to_string()]
    );
    let failure =
        s.upgrade(Traffic::new(3, "u", "GET"), 78, Some("no key".to_string())).unwrap_err();
    assert_eq!(failure.response.status, 500);
    assert_eq!(
        s.state.get_traffic(2).unwrap().errors,
        vec!["Failed to upgrade to websocket, no key".to_string()]
    );
    assert!(s.state.subscribe_websocket(2).is_none());
}

#[test]
fn upgrades_are_told_by_two_fields() {
    let s = server(&[]);
    let upgrades = |fields: &[(&'static str, &str)]| {
        matches!(s.begin(1, "http://a/x", "GET", map(fields), true), Begun::Upgrade(_))
    };
    assert!(upgrades(&[("connection", "upgrade"), ("upgrade", "WEBSOCKET")]));
    assert!(upgrades(&[("connection", "a,\t Upgrade ,b"), ("upgrade", "h2c"), ("upgrade", "websocket,x")]));
    assert!(!upgrades(&[("connection", "upgraded"), ("upgrade", "websocket")]));
    assert!(!upgrades(&[("connection", "up grade"), ("upgrade", "websocket")]));
    assert!(!upgrades(&[("connection", "Upgrade"), ("upgrade", "web, socket")]));
    assert!(!upgrades(&[("upgrade", "websocket")]));
    assert!(!upgrades(&[("connection", "Upgrade")]));
    assert!(!upgrades(&[("connection", ""), ("upgrade", ",,")]));
}

#[test]
fn protocols_in_tunnels() {
    assert_eq!(sniff(b"GET "), Protocol::Http);
    assert_eq!(sniff(b"\x16\x03\x01\x00"), Protocol::Tls);
    assert_eq!(sniff(b"POST"), Protocol::Unknown);
    assert_eq!(sniff(b"\x16\x04\x01\x00"), Protocol::Unknown);
    assert_eq!(connect_response(true).status, 200);
    assert_eq!(connect_response(false).status, 400);
}

fn tunnel_errors(end: TunnelEnd) -> Option<Vec<String>> {
    let mut s = server(&["text/"]);
    let notice = s.end_tunnel(Traffic::new(1, "a:1", "CONNECT"), "a:1", end);
    assert_eq!(notice.is_some(), s.state.list_heads().len() == 1);
    s.state.get_traffic(1).map(|t| t.errors)
}

#[test]
fn ends_of_tunnels() {
    let e = || "why".to_string();
    let one = |s: &str| Some(vec![s.to_string()]);
    assert_eq!(tunnel_errors(TunnelEnd::UpgradeFailed(e())), one("Upgrade error: why"));
    assert_eq!(tunnel_errors(TunnelEnd::ReadFailed(e())), None);
    assert_eq!(tunnel_errors(TunnelEnd::Http(None)), Some(vec![]));
    assert_eq!(tunnel_errors(TunnelEnd::Http(Some(e()))), one("Websocket connect error: why"));
    assert_eq!(tunnel_errors(TunnelEnd::ConfigFailed(e())), None);
    assert_eq!(tunnel_errors(TunnelEnd::AcceptFailed(e())), None);
    assert_eq!(tunnel_errors(TunnelEnd::Https(None)), Some(vec![]));
    assert_eq!(tunnel_errors(TunnelEnd::Https(Some(e()))), one("HTTPS connect error: why"));
    assert_eq!(
        tunnel_errors(TunnelEnd::Https(Some("error shutting down connection: x".to_string()))),
        Some(vec![])
    );
    assert_eq!(tunnel_errors(TunnelEnd::Unreachable(*b"SSH-", e())), None);
    let unknown = format!("Unknown protocol, read '{:02X?}' from upgraded connection", b"\x00\xffAz");
    assert_eq!(unknown, "Unknown protocol, read '[00, FF, 41, 7A]' from upgraded connection");
    assert_eq!(tunnel_errors(TunnelEnd::Bytes(*b"\x00\xffAz", None)), Some(vec![unknown.clone()]));
    assert_eq!(
        tunnel_errors(TunnelEnd::Bytes(*b"\x00\xffAz", Some(e()))),
        Some(vec![unknown, "Failed to tunnel unknown protocol to a:1: why".to_string()])
    );
}
