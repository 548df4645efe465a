use http::HeaderMap;
use proxymore::edit::ModifiedTraffic;
use proxymore::headers::{
    apply_modified_headers, content_type, forwarded_headers, is_short, names_fit,
    response_headers, Header, Leg,
};

fn map(fields: &[(&'static str, &str)]) -> HeaderMap {
    let mut m = HeaderMap::new();
    for (name, value) in fields {
        m.append(*name, value.parse().unwrap());
    }
    m
}

fn listed(list: &[Header]) -> Vec<(String, String)> {
    let mut r: Vec<(String, String)> = list
        .iter()
        .map(|h| (h.name.clone(), String::from_utf8(h.value.clone()).unwrap()))
        .collect();
    r.sort();
    r
}

fn pairs(list: &[(&str, &str)]) -> Vec<(String, String)> {
    list.iter().map(|(n, v)| (n.to_string(), v.to_string())).collect()
}

fn values(m: &HeaderMap, name: &str) -> Vec<String> {
    m.get_all(name).iter().map(|v| v.to_str().unwrap().to_string()).collect()
}

#[test]
fn what_goes_on_over_http() {
    let m = map(&[
        ("host", "a"),
        ("connection", "close"),
        ("proxy-authorization", "x"),
        ("transfer-encoding", "chunked"),
        ("upgrade", "h2c"),
        ("te", "trailers"),
        ("keep-alive", "5"),
        ("proxy-connection", "keep-alive"),
        ("accept", "text/html"),
        ("accept", "text/plain"),
        ("sec-websocket-key", "k"),
    ]);
    assert_eq!(
        listed(&forwarded_headers(&m, Leg::Http)),
        pairs(&[("accept", "text/html"), ("accept", "text/plain"), ("sec-websocket-key", "k")])
    );
}

#[test]
fn what_goes_on_over_websocket() {
    let m = map(&[
        ("host", "a"),
        ("connection", "Upgrade"),
        ("proxy-authorization", "x"),
        ("sec-websocket-key", "k"),
        ("sec-websocket-version", "13"),
        ("sec-websocket-extensions", "e"),
        ("sec-websocket-protocol", "p"),
        ("te", "trailers"),
    ]);
    assert_eq!(
        listed(&forwarded_headers(&m, Leg::Websocket)),
        pairs(&[("sec-websocket-protocol", "p"), ("te", "trailers")])
    );
}

#[test]
fn passing_on_twice() {
    let m = map(&[("host", "a"), ("accept", "x")]);
    let once = forwarded_headers(&m, Leg::Http);
    let mut again = HeaderMap::new();
    for h in &once {
        again.append(
            http::HeaderName::from_bytes(h.name.as_bytes()).unwrap(),
            http::HeaderValue::from_bytes(&h.value).unwrap(),
        );
    }
    assert_eq!(listed(&forwarded_headers(&again, Leg::Http)), listed(&once));
}

#[test]
fn media_type_of_a_response() {
    assert_eq!(content_type(&map(&[])), "");
    assert_eq!(content_type(&map(&[("content-type", "a/b"), ("content-type", "c/d")])), "a/b");
    let mut m = HeaderMap::new();
    m.insert("content-type", http::HeaderValue::from_bytes(b"a\xff").unwrap());
    assert_eq!(content_type(&m), "");
}

#[test]
fn fields_of_a_response() {
    let m = map(&[
        ("set-cookie", "a=1"),
        ("set-cookie", "b=2"),
        ("content-encoding", "br"),
        ("content-encoding", "gzip"),
        ("x", "y"),
    ]);
    let (out, encoding) = response_headers(&m);
    assert_eq!(values(&out, "set-cookie"), vec!["b=2"]);
    assert_eq!(values(&out, "content-encoding"), vec!["gzip"]);
    assert_eq!(values(&out, "x"), vec!["y"]);
    assert_eq!(out.len(), 3);
    assert_eq!(encoding, "gzip");
    let (out, encoding) = response_headers(&HeaderMap::new());
    assert!(out.is_empty());
    assert_eq!(encoding, "");
}

#[test]
fn edited_fields_replace_the_old_ones() {
    let mut m = map(&[("a", "1"), ("content-length", "5")]);
    let edit = ModifiedTraffic {
        headers: Some(pairs(&[
            ("B", "2"),
            ("b", "3"),
            ("bad name", "4"),
            ("c", "bad\nvalue"),
            ("Content-Length", "9"),
        ])),
        body: None,
    };
    apply_modified_headers(&mut m, &edit);
    assert_eq!(values(&m, "b"), vec!["2", "3"]);
    assert_eq!(values(&m, "content-length"), vec!["9"]);
    assert_eq!(m.len(), 3);
}

#[test]
fn edited_body_drops_its_length_and_encoding() {
    let mut m = map(&[("a", "1"), ("content-length", "5"), ("content-encoding", "gzip")]);
    apply_modified_headers(&mut m, &ModifiedTraffic { headers: None, body: Some(vec![]) });
    assert_eq!(values(&m, "a"), vec!["1"]);
    assert_eq!(m.len(), 1);
}

#[test]
fn empty_edit_keeps_the_fields() {
    let mut m = map(&[("a", "1"), ("content-length", "5")]);
    apply_modified_headers(&mut m, &ModifiedTraffic { headers: None, body: None });
    assert_eq!(m, map(&[("a", "1"), ("content-length", "5")]));
}

#[test]
fn how_many_fields_fit() {
    assert!(names_fit(&map(&[("a", "1")])));
    let mut m = HeaderMap::new();
    for i in 0..6554 {
        m.append(
            http::HeaderName::from_bytes(format!("n{i}").as_bytes()).unwrap(),
            http::HeaderValue::from_static("v"),
        );
        assert_eq!(names_fit(&m), i < 6553);
    }
    let long = |n: usize| ModifiedTraffic {
        headers: Some(vec![("a".to_string(), "b".to_string()); n]),
        body: None,
    };
    assert!(is_short(&long(6553)));
    assert!(!is_short(&long(6554)));
    assert!(is_short(&ModifiedTraffic { headers: None, body: None }));
}

#[test]
fn names_with_a_quote_come_through() {
    let mut m = HeaderMap::new();
    let name = http::HeaderName::from_lowercase(b"a\"b").unwrap();
    m.append(name.clone(), "1".parse().unwrap());
    m.append(name.clone(), "2".parse().unwrap());
    let (out, _) = response_headers(&m);
    assert_eq!(out.get(&name).unwrap(), "2");
    assert_eq!(out.len(), 1);
    assert_eq!(
        listed(&forwarded_headers(&m, Leg::Http)),
        pairs(&[("a\"b", "1"), ("a\"b", "2")])
    );
    let edit = ModifiedTraffic { headers: Some(pairs(&[("a\"b", "3")])), body: None };
    apply_modified_headers(&mut m, &edit);
    assert!(m.is_empty());
}
