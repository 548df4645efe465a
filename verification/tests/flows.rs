use http::HeaderMap;
use proxymore::edit::ModifiedTraffic;
use proxymore::exchange::{Begun, Exchange, Incoming, Kept};
use proxymore::flow::{Act, Event, Stage, Step};
use proxymore::response::{ResBody, Response};
use proxymore::rules::{Rule, RuleAction, RuleMatcher};
use proxymore::server::{CertificateAuthority, Pages, Server, ServerBuilder};
use proxymore::state::PendingResolution;
use proxymore::traffic::HttpVersion;

fn server(action: Option<RuleAction>) -> Server<u8> {
    let mut s = ServerBuilder::new(
        CertificateAuthority { cert_pem: String::new() },
        Pages { web_index: String::new(), cert_index: String::new() },
    )
    .build("/tmp".to_string());
    if let Some(action) = action {
        s.state.add_rule(Rule { matcher: RuleMatcher::Any, uri_pattern: None, action });
    }
    s
}

fn map(fields: &[(&'static str, &str)]) -> HeaderMap {
    let mut m = HeaderMap::new();
    for (name, value) in fields {
        m.append(*name, value.parse().unwrap());
    }
    m
}

fn exchange(s: &Server<u8>, valid: bool) -> Exchange {
    match s.begin(9, "http://a/", "POST", map(&[("host", "a"), ("x", "1")]), valid) {
        Begun::Forward(x) => x,
        other => panic!("{other:?}"),
    }
}

fn incoming() -> Incoming {
    Incoming {
        status: 200,
        version: HttpVersion::Http11,
        headers: map(&[("content-length", "3"), ("y", "2")]),
    }
}

fn stage(step: Step) -> Stage {
    step.stage.unwrap()
}

fn answer(step: Step) -> Response {
    assert!(step.stage.is_none());
    match step.act {
        Act::Respond(res) => res,
        other => panic!("{other:?}"),
    }
}

fn resolved(resolution: PendingResolution) -> Event {
    Event::Resolved(Some(resolution))
}

fn edited(headers: &[(&str, &str)], body: &[u8]) -> Event {
    resolved(PendingResolution::Continue(Some(ModifiedTraffic {
        headers: Some(headers.iter().map(|(n, v)| (n.to_string(), v.to_string())).collect()),
        body: Some(body.to_vec()),
    })))
}

fn kept() -> Event {
    Event::Kept(Kept::At("/tmp/f".to_string()))
}

#[test]
fn a_plain_exchange() {
    let mut s = server(None);
    let x = exchange(&s, true);
    let step = s.start(x, 0);
    assert!(matches!(step.act, Act::KeepRequest));
    let step = s.step(stage(step), kept(), 0);
    match &step.act {
        Act::Send(out) => {
            assert_eq!(out.headers.len(), 1);
            assert_eq!(out.headers[0].name, "x");
            assert_eq!(out.body, None);
        }
        other => panic!("{other:?}"),
    }
    let step = s.step(stage(step), Event::Answered(50, Ok(incoming()), true), 0);
    assert!(matches!(step.act, Act::KeepResponse));
    assert!(s.state.list_heads().is_empty());
    let step = s.step(stage(step), kept(), 0);
    assert_eq!(step.news.len(), 1);
    assert_eq!((step.news[0].id, step.news[0].status), (1, Some(200)));
    assert_eq!(step.done, None);
    let res = answer(step);
    assert!(matches!(res.body, ResBody::Destination));
    let t = s.state.get_traffic(1).unwrap();
    assert_eq!(t.start_time, Some(50));
    assert_eq!(t.req_body_file.as_deref(), Some("/tmp/f"));
    assert_eq!(t.res_body_file.as_deref(), Some("/tmp/f"));
}

#[test]
fn a_filtered_exchange() {
    let mut s = server(None);
    let x = exchange(&s, false);
    let step = s.start(x, 0);
    assert!(matches!(step.act, Act::Send(_)));
    let res = answer(s.step(stage(step), Event::Answered(1, Ok(incoming()), true), 0));
    assert_eq!(res.status, 200);
    assert!(s.state.list_heads().is_empty());
    let x = exchange(&s, true);
    let step = s.start(x, 0);
    let step = s.step(stage(step), Event::Kept(Kept::No), 0);
    answer(s.step(stage(step), Event::Answered(1, Ok(incoming()), false), 0));
    assert!(s.state.list_heads().is_empty());
}

#[test]
fn an_exchange_held_back_twice() {
    let mut s = server(Some(RuleAction::PauseToEditRequestAndResponse));
    let x = exchange(&s, true);
    let step = s.start(x, 1);
    assert!(matches!(step.act, Act::Wait));
    assert_eq!(step.news.len(), 2);
    assert!(!step.news[0].pending && step.news[1].pending);
    let sent = s.state.resolve_pending(9, PendingResolution::Cancel).unwrap();
    assert_eq!(sent.sender, 1);
    let step = s.step(stage(step), edited(&[("z", "3")], b"new"), 2);
    assert_eq!(step.news.len(), 1);
    let step = s.step(stage(step), kept(), 2);
    match &step.act {
        Act::Send(out) => {
            assert_eq!(out.headers[0].name, "z");
            assert_eq!(out.body, Some(b"new".to_vec()));
        }
        other => panic!("{other:?}"),
    }
    let step = s.step(stage(step), Event::Answered(50, Ok(incoming()), true), 2);
    assert!(matches!(step.act, Act::ReadBody));
    let step = s.step(stage(step), Event::Read(Some(b"abc".to_vec())), 2);
    assert!(matches!(step.act, Act::KeepResponse));
    let step = s.step(stage(step), kept(), 2);
    assert!(matches!(step.act, Act::Wait));
    assert_eq!(step.news.len(), 2);
    assert_eq!(s.state.list_heads().len(), 1);
    assert_eq!(s.state.get_traffic(1).unwrap().res_body_size, Some(3));
    let res = answer(s.step(stage(step), edited(&[("w", "4")], b"other"), 3));
    assert_eq!(res.headers, map(&[("w", "4")]));
    assert!(matches!(&res.body, ResBody::Bytes(b) if b == b"other"));
}

#[test]
fn an_exchange_held_back_and_given_up() {
    let mut s = server(Some(RuleAction::PauseToEditRequest));
    let x = exchange(&s, true);
    let step = s.start(x, 1);
    let res = answer(s.step(stage(step), Event::Resolved(None), 2));
    assert_eq!(res.status, 504);
    assert_eq!(s.state.list_heads().len(), 1);
}

#[test]
fn rules_do_not_hold_what_is_filtered() {
    let mut s = server(Some(RuleAction::PauseToEditRequestAndResponse));
    let x = exchange(&s, false);
    let step = s.start(x, 1);
    assert!(matches!(step.act, Act::Send(_)));
    assert!(step.news.is_empty());
    let step = s.step(stage(step), Event::Answered(1, Ok(incoming()), true), 1);
    assert!(step.news.is_empty());
    let res = answer(step);
    assert!(matches!(res.body, ResBody::Destination));
    assert_eq!(res.headers, map(&[("content-length", "3"), ("y", "2")]));
    assert!(s.state.list_heads().is_empty());
    assert_eq!(s.state.is_pending(9), None);
    let mut s = server(Some(RuleAction::PauseToEditResponse));
    let x = exchange(&s, true);
    let step = s.start(x, 1);
    let step = s.step(stage(step), kept(), 1);
    let res = answer(s.step(stage(step), Event::Answered(1, Ok(incoming()), false), 1));
    assert_eq!(res.status, 200);
    assert!(s.state.list_heads().is_empty());
}

#[test]
fn a_held_response_goes_on() {
    let mut s = server(Some(RuleAction::PauseToEditResponse));
    let x = exchange(&s, true);
    let step = s.start(x, 1);
    let step = s.step(stage(step), kept(), 1);
    let step = s.step(stage(step), Event::Answered(1, Ok(incoming()), true), 1);
    let step = s.step(stage(step), Event::Read(Some(b"abc".to_vec())), 4);
    let step = s.step(stage(step), Event::Kept(Kept::Failed("/f".to_string())), 4);
    assert!(matches!(step.act, Act::Wait));
    assert_eq!(s.state.list_heads().len(), 1);
    assert_eq!(s.state.get_traffic(1).unwrap().res_body_file, None);
    let res = answer(s.step(stage(step), resolved(PendingResolution::Continue(None)), 5));
    assert!(matches!(&res.body, ResBody::Bytes(b) if b == b"abc"));
    assert_eq!(res.headers, map(&[("content-length", "3"), ("y", "2")]));
}

#[test]
fn exchanges_that_fail() {
    let mut s = server(None);
    let x = exchange(&s, true);
    let step = s.start(x, 0);
    let step = s.step(stage(step), Event::Kept(Kept::Failed("/f".to_string())), 0);
    assert_eq!(step.done, Some((9, 0)));
    assert_eq!(step.news.len(), 1);
    assert_eq!(answer(step).status, 500);
    let x = exchange(&s, true);
    let step = s.start(x, 0);
    let step = s.step(stage(step), kept(), 0);
    let step = s.step(stage(step), Event::Answered(7, Err("refused".to_string()), false), 0);
    assert_eq!(step.done, Some((9, 0)));
    assert_eq!(answer(step).status, 500);
    let t = s.state.get_traffic(2).unwrap();
    assert_eq!((t.errors, t.start_time), (vec!["refused".to_string()], Some(7)));
    let mut s = server(Some(RuleAction::PauseToEditResponse));
    let x = exchange(&s, true);
    let step = s.start(x, 0);
    let step = s.step(stage(step), kept(), 0);
    let step = s.step(stage(step), Event::Answered(7, Ok(incoming()), true), 0);
    let res = answer(s.step(stage(step), Event::Read(None), 0));
    assert_eq!(res.status, 504);
    assert!(s.state.list_heads().is_empty());
}

#[test]
fn a_response_without_a_request_of_its_own() {
    let mut s = server(Some(RuleAction::PauseToEditResponse));
    let x = exchange(&s, true);
    let step = s.receive(x.traffic, incoming(), true, &None);
    assert!(matches!(step.act, Act::KeepResponse));
    let step = s.step(stage(step), Event::Kept(Kept::No), 0);
    assert_eq!(step.news.len(), 1);
    assert_eq!(answer(step).status, 200);
}
