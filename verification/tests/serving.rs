use proxymore::emulation::Emulation;
use proxymore::export::{finish_all, har_entries, ExportFormat, ExportJob, Rendered};
use proxymore::launch::PrintMode;
use proxymore::message::{WebsocketMessage, WsMessage};
use proxymore::response::{feed_item, ndjson_line, ResBody, Response};
use proxymore::server::{
    finish_export, temp_dir_name, CertificateAuthority, Handled, Pages, Route, Server,
    ServerBuilder, TitleFilter, CERT_PREFIX, RULE_TIMEOUT_SECONDS, WEB_PREFIX,
};
use proxymore::traffic::Traffic;

fn builder() -> ServerBuilder {
    ServerBuilder::new(
        CertificateAuthority { cert_pem: "PEM".to_string() },
        Pages { web_index: "<web>".to_string(), cert_index: "<cert>".to_string() },
    )
}

fn server(base: Option<&str>, web: bool) -> Server<()> {
    builder()
        .reverse_proxy_url(base.map(|s| s.to_string()))
        .web(web)
        .build("/tmp/x".to_string())
}

fn respond(handled: Handled) -> Response {
    match handled {
        Handled::Respond(res) => res,
        other => panic!("{other:?}"),
    }
}

fn field(res: &Response, name: &str) -> Option<String> {
    res.headers.get(name).map(|v| v.to_str().unwrap().to_string())
}

fn text(res: &Response) -> &str {
    match &res.body {
        ResBody::Text(s) => s,
        other => panic!("{other:?}"),
    }
}

#[test]
fn settings_to_begin_with() {
    let s: Server<()> = builder().build("/tmp/x".to_string());
    assert_eq!(s.reverse_proxy_url, None);
    assert_eq!(s.emulation, Emulation::Firefox147);
    assert!(s.cert_verification && !s.web);
    assert!(s.title_filters.is_empty() && s.mime_filters.is_empty());
    assert_eq!(s.temp_dir, "/tmp/x");
    assert!(s.state().list_heads().is_empty());
    assert_eq!(temp_dir_name(42), "proxymore-42");
    assert_eq!(CERT_PREFIX, "http://proxymore.local/");
    assert_eq!(WEB_PREFIX, "/__proxymore__");
    assert_eq!(RULE_TIMEOUT_SECONDS, 300);
}

#[test]
fn settings_that_are_changed() {
    let s: Server<()> = builder()
        .reverse_proxy_url(Some("http://a".to_string()))
        .emulation(Emulation::Opera116)
        .cert_verification(false)
        .title_filters(vec![TitleFilter { pattern: "x".to_string() }])
        .mime_filters(vec!["text/".to_string()])
        .web(true)
        .print_mode(PrintMode::Nothing)
        .build("t".to_string());
    assert_eq!(s.reverse_proxy_url.as_deref(), Some("http://a"));
    assert_eq!(s.emulation, Emulation::Opera116);
    assert!(!s.cert_verification && s.web);
    assert_eq!(s.title_filters[0].pattern, "x");
    assert_eq!(s.mime_filters, vec!["text/".to_string()]);
}

#[test]
fn requests_with_a_host_are_forwarded() {
    for s in [server(None, false), server(Some("http://base"), true)] {
        assert!(matches!(
            s.handle("http://a.com/x?y=1", "GET"),
            Handled::Forward(uri) if uri == "http://a.com/x?y=1"
        ));
        assert!(matches!(s.handle("a.com:443", "CONNECT"), Handled::Forward(uri) if uri == "a.com:443"));
    }
}

#[test]
fn requests_without_a_host_go_below_the_url() {
    let s = server(Some("https://httpbin.org"), false);
    assert!(matches!(
        s.handle("/ip?a", "POST"),
        Handled::Forward(uri) if uri == "https://httpbin.org/ip?a"
    ));
    let res = respond(server(None, true).handle("/ip", "GET"));
    assert_eq!(res.status, 500);
    assert_eq!(text(&res), "No reserver proxy url");
    assert_eq!(field(&res, "content-length").as_deref(), Some("21"));
}

#[test]
fn certificate_pages() {
    let s = server(None, false);
    let res = respond(s.handle("http://proxymore.local/", "GET"));
    assert_eq!((res.status, text(&res)), (200, "<cert>"));
    assert_eq!(field(&res, "content-type").as_deref(), Some("text/html; charset=UTF-8"));
    assert_eq!(field(&res, "access-control-allow-origin"), None);
    for name in ["proxymore-ca-cert.cer", "proxymore-ca-cert.pem"] {
        let res = respond(s.handle(&format!("http://proxymore.local/{name}?x"), "POST"));
        assert_eq!((res.status, text(&res)), (200, "PEM"));
        assert_eq!(field(&res, "content-type").as_deref(), Some("application/x-x509-ca-cert"));
        assert_eq!(
            field(&res, "content-disposition"),
            Some(format!("attachment; filename=\"{name}\""))
        );
    }
    let res = respond(s.handle("http://proxymore.local/other", "GET"));
    assert_eq!(res.status, 404);
    assert!(matches!(res.body, ResBody::Empty));
}

#[test]
fn the_web_interface_is_off() {
    let res = respond(server(Some("http://a"), false).handle("/__proxymore__/traffics", "GET"));
    assert_eq!(res.status, 400);
    assert_eq!(
        text(&res),
        "The web interface is disabled. To enable it, run the command with the `--web` flag."
    );
    assert_eq!(field(&res, "access-control-allow-origin"), None);
}

#[test]
fn the_web_interface_only_reads() {
    let res = respond(server(None, true).handle("/__proxymore__", "POST"));
    assert_eq!(res.status, 405);
    assert!(res.headers.is_empty());
}

#[test]
fn the_index_of_the_web_interface() {
    let s = server(None, true);
    for uri in ["/__proxymore__", "/__proxymore__/", "/__proxymore__/?a=b"] {
        let res = respond(s.handle(uri, "GET"));
        assert_eq!((res.status, text(&res)), (200, "<web>"));
        assert_eq!(field(&res, "content-type").as_deref(), Some("text/html; charset=UTF-8"));
        assert_eq!(field(&res, "cache-control").as_deref(), Some("no-cache"));
        assert_eq!(field(&res, "access-control-allow-origin").as_deref(), Some("*"));
        assert_eq!(
            field(&res, "access-control-allow-methods").as_deref(),
            Some("GET,POST,PUT,PATCH,DELETE")
        );
        assert_eq!(
            field(&res, "access-control-allow-headers").as_deref(),
            Some("Content-Type,Authorization")
        );
    }
    let res = respond(s.handle("/__proxymore__/nothing", "GET"));
    assert_eq!(res.status, 404);
    assert_eq!(field(&res, "access-control-allow-origin").as_deref(), Some("*"));
    let res = respond(s.handle("/__proxymore__/certificate/proxymore-ca-cert.pem", "GET"));
    assert_eq!(text(&res), "PEM");
}

#[test]
fn the_feed_of_summaries() {
    let mut s = server(None, true);
    s.state.add_traffic(Traffic::new(8, "http://a/", "GET"));
    let res = respond(s.handle("/__proxymore__/subscribe/traffics", "GET"));
    assert!(matches!(&res.body, ResBody::Heads(heads) if heads.len() == 1 && heads[0].id == 1));
    assert_eq!(
        field(&res, "content-type").as_deref(),
        Some("application/x-ndjson; charset=UTF-8")
    );
}

#[test]
fn the_feed_of_a_websocket() {
    let mut s = server(None, true);
    let id = s.state.new_websocket();
    s.state.add_websocket_message(id, &WsMessage::Text("m".to_string()), true, 0);
    let res = respond(s.handle("/__proxymore__/subscribe/websocket/1", "GET"));
    assert!(matches!(&res.body, ResBody::Messages(1, list) if list.len() == 1));
    let res = respond(s.handle("/__proxymore__/subscribe/websocket/2", "GET"));
    assert_eq!((res.status, text(&res)), (404, "Not found websocket"));
    let res = respond(s.handle("/__proxymore__/subscribe/websocket/x", "GET"));
    assert_eq!((res.status, text(&res)), (400, "Invalid id"));
}

#[test]
fn listings_of_all_exchanges() {
    let mut s = server(None, true);
    s.state.add_traffic(Traffic::new(8, "http://a/", "GET"));
    match s.handle("/__proxymore__/traffics?har", "GET") {
        Handled::Render(_, ExportJob::Traffics(ExportFormat::Har, list)) => {
            assert_eq!(list.len(), 1)
        }
        other => panic!("{other:?}"),
    }
    match s.handle("/__proxymore__/traffics", "GET") {
        Handled::Render(_, ExportJob::Heads(list)) => assert_eq!(list[0].id, 1),
        other => panic!("{other:?}"),
    }
    for (word, format) in [
        ("markdown", ExportFormat::Markdown),
        ("curl", ExportFormat::Curl),
        ("json", ExportFormat::Json),
    ] {
        assert!(matches!(
            s.handle(&format!("/__proxymore__/traffics?{word}"), "GET"),
            Handled::Render(_, ExportJob::Traffics(f, _)) if f == format
        ));
    }
    let res = respond(s.handle("/__proxymore__/traffics?xml", "GET"));
    assert_eq!((res.status, text(&res)), (500, "Unsupported format: xml"));
}

#[test]
fn listings_of_one_exchange() {
    let mut s = server(None, true);
    s.state.add_traffic(Traffic::new(8, "http://a/", "GET"));
    match s.handle("/__proxymore__/traffic/1?curl", "GET") {
        Handled::RenderOne(_, t, format) => {
            assert_eq!((t.gid, format.as_str()), (8, "curl"));
        }
        other => panic!("{other:?}"),
    }
    let res = respond(s.handle("/__proxymore__/traffic/2?curl", "GET"));
    assert_eq!((res.status, text(&res)), (500, "Not found traffic 2"));
    let res = respond(s.handle("/__proxymore__/traffic/one", "GET"));
    assert_eq!((res.status, text(&res)), (400, "Invalid id"));
}

#[test]
fn routes_are_told_apart() {
    let s = server(Some("http://b"), true);
    assert!(matches!(
        s.route("/__proxymore__/subscribe/websocket/7", "GET"),
        Route::Websocket(id) if id == "7"
    ));
    assert!(matches!(s.route("/x", "GET"), Route::Forward(uri) if uri == "http://b/x"));
    assert!(matches!(
        s.route("/__proxymore__/traffic/3?json", "GET"),
        Route::ExportOne(id, q) if id == "3" && q == "json"
    ));
}

#[test]
fn renderings_are_answered() {
    let res = finish_export(Response::bare(200), Ok(("data".to_string(), "text/plain")));
    assert_eq!((res.status, text(&res)), (200, "data"));
    assert_eq!(field(&res, "content-type").as_deref(), Some("text/plain"));
    assert_eq!(field(&res, "content-length").as_deref(), Some("4"));
    assert_eq!(field(&res, "cache-control").as_deref(), Some("no-cache"));
    let res = finish_export(Response::bare(200), Err("bad".to_string()));
    assert_eq!((res.status, text(&res)), (500, "bad"));
    assert_eq!(field(&res, "content-type"), None);
    let res = finish_export(Response::bare(200), Ok(("data".to_string(), "a\nb")));
    assert_eq!((res.status, text(&res)), (500, "failed to parse header value"));
    assert_eq!(field(&res, "content-length").as_deref(), Some("28"));
}

#[test]
fn exports_are_put_together() {
    let texts = || Rendered::Texts(vec!["a".to_string(), "b".to_string()]);
    let (data, media) = finish_all(ExportFormat::Markdown, texts()).unwrap();
    assert_eq!((data.as_str(), media), ("a\n\nb", "text/markdown; charset=UTF-8"));
    let (data, media) = finish_all(ExportFormat::Curl, texts()).unwrap();
    assert_eq!((data.as_str(), media), ("a\n\nb", "text/plain; charset=UTF-8"));
    let one = serde_json::Value::from(1);
    let entries = har_entries(vec![Some(one.clone()), None, Some(serde_json::Value::Null)]);
    assert_eq!(entries, vec![one.clone(), serde_json::Value::Null]);
    let values = Rendered::Values(vec![one.clone(), serde_json::Value::from("x")]);
    let (data, media) = finish_all(ExportFormat::Json, values).unwrap();
    assert_eq!((data.as_str(), media), ("[\n  1,\n  \"x\"\n]", "application/json; charset=UTF-8"));
    let (data, media) = finish_all(ExportFormat::Har, Rendered::Document(one)).unwrap();
    assert_eq!((data.as_str(), media), ("1", "application/json; charset=UTF-8"));
    let (data, media) = finish_all(ExportFormat::Heads, Rendered::Written("[]".to_string())).unwrap();
    assert_eq!((data.as_str(), media), ("[]", "application/json; charset=UTF-8"));
    assert_eq!(ExportJob::Heads(vec![]).format(), ExportFormat::Heads);
    assert_eq!(ExportJob::Traffics(ExportFormat::Har, vec![]).format(), ExportFormat::Har);
}

#[test]
fn words_of_formats() {
    assert_eq!(ExportFormat::from_word("markdown"), Some(ExportFormat::Markdown));
    assert_eq!(ExportFormat::from_word("har"), Some(ExportFormat::Har));
    assert_eq!(ExportFormat::from_word("curl"), Some(ExportFormat::Curl));
    assert_eq!(ExportFormat::from_word("json"), Some(ExportFormat::Json));
    assert_eq!(ExportFormat::from_word(""), Some(ExportFormat::Heads));
    assert_eq!(ExportFormat::from_word("JSON"), None);
}

#[test]
fn lines_of_a_feed() {
    assert_eq!(ndjson_line(Some("{}".to_string())), "{}\n");
    assert_eq!(ndjson_line(None), "");
    assert!(feed_item(1, (1, WebsocketMessage::Error("e".to_string()))).is_some());
    assert!(feed_item(1, (2, WebsocketMessage::Error("e".to_string()))).is_none());
}

#[test]
fn lengths_are_in_bytes() {
    let res = Response::with_text(200, "é→");
    assert_eq!(field(&res, "content-length").as_deref(), Some("5"));
}

#[test]
fn exports_from_the_state() {
    let mut s = server(None, true);
    s.state.add_traffic(Traffic::new(8, "http://a/", "GET"));
    assert_eq!(s.state.export_traffic(1).unwrap().gid, 8);
    assert_eq!(s.state.export_traffic(0).unwrap_err(), "Not found traffic 0");
    assert_eq!(s.state.export_all_traffics("pdf").unwrap_err(), "Unsupported format: pdf");
    assert!(matches!(s.state.export_all_traffics("json"), Ok(ExportJob::Traffics(ExportFormat::Json, l)) if l.len() == 1));
}
