use proxymore::edit::{EditedBody, EditedItem, EditedPart, ModifiedTraffic};

fn pairs(list: &[(&str, &str)]) -> Option<Vec<(String, String)>> {
    Some(list.iter().map(|(n, v)| (n.to_string(), v.to_string())).collect())
}

#[test]
fn an_edited_request() {
    let m = ModifiedTraffic::from_edited_json_req(
        r#"{"req_headers":{"items":[{"name":"A","value":"1"},{"name":"B"},{"value":"2"},{"name":"C","value":3},{"name":"A","value":"4"}]},
            "req_body":{"encode":"utf8","value":"héllo"},
            "res_headers":{"items":[{"name":"X","value":"Y"}]}}"#,
    )
    .unwrap();
    assert_eq!(m.headers, pairs(&[("A", "1"), ("A", "4")]));
    assert_eq!(m.body, Some("héllo".as_bytes().to_vec()));
}

#[test]
fn an_edited_response() {
    let m = ModifiedTraffic::from_edited_json_res(
        r#"{"res_headers":{"items":[]},"res_body":{"encode":"base64","value":"aGVsbG8="},"req_body":{"encode":"utf8","value":"no"}}"#,
    )
    .unwrap();
    assert_eq!(m.headers, pairs(&[]));
    assert_eq!(m.body, Some(b"hello".to_vec()));
}

#[test]
fn a_body_that_is_not_base64() {
    let m = ModifiedTraffic::from_edited_json_res(
        r#"{"res_body":{"encode":"base64","value":"***"}}"#,
    )
    .unwrap();
    assert_eq!(m.headers, None);
    assert_eq!(m.body, None);
    let m = ModifiedTraffic::from_edited_json_req(r#"{"req_body":{"value":"x"}}"#).unwrap();
    assert_eq!(m.body, None);
}

#[test]
fn a_document_that_edits_nothing() {
    for json in ["{}", "[]", "7", "null", r#"{"req_headers":[],"req_body":"x"}"#] {
        let m = ModifiedTraffic::from_edited_json_req(json).unwrap();
        assert_eq!(m.headers, None);
        assert_eq!(m.body, None);
    }
}

#[test]
fn a_text_that_is_no_document() {
    assert!(ModifiedTraffic::from_edited_json_req("{").is_none());
    assert!(ModifiedTraffic::from_edited_json_res("").is_none());
}

#[test]
fn an_edit_given_its_parts() {
    let part = |encode: &str| EditedPart {
        items: Some(vec![
            EditedItem { name: Some("n".to_string()), value: Some("v".to_string()) },
            EditedItem { name: Some("n".to_string()), value: None },
        ]),
        body: Some(EditedBody {
            encode: Some(encode.to_string()),
            value: Some("dGV4dA==".to_string()),
        }),
    };
    let m = ModifiedTraffic::from_part(part("base64"));
    assert_eq!(m.headers, pairs(&[("n", "v")]));
    assert_eq!(m.body, Some(b"text".to_vec()));
    let m = ModifiedTraffic::from_part(part("utf8"));
    assert_eq!(m.body, Some(b"dGV4dA==".to_vec()));
    let m = ModifiedTraffic::from_decoded(part("base64"), Some(vec![1, 2]));
    assert_eq!(m.body, Some(vec![1, 2]));
    let m = ModifiedTraffic::from_decoded(part("base64"), None);
    assert_eq!(m.body, None);
}

#[test]
fn bodies_are_read_back() {
    let cases: [(&[u8], &str); 5] = [
        (b"", ""),
        (b"\x00", "AA=="),
        (b"\xff\xfe", "//4="),
        (b"any", "YW55"),
        (b"\xfb\xef\xbe\x01", "++++AQ=="),
    ];
    for (bytes, written) in cases {
        let json = format!(r#"{{"req_body":{{"encode":"base64","value":"{written}"}}}}"#);
        let m = ModifiedTraffic::from_edited_json_req(&json).unwrap();
        assert_eq!(m.body.as_deref(), Some(bytes));
    }
    let json = r#"{"res_body":{"encode":"","value":"plain \u00e9"}}"#;
    let m = ModifiedTraffic::from_edited_json_res(json).unwrap();
    assert_eq!(m.body, Some("plain é".as_bytes().to_vec()));
}

#[test]
fn edits_are_copied() {
    let m = ModifiedTraffic { headers: pairs(&[("a", "1"), ("b", "2")]), body: Some(vec![3]) };
    let copy = m.clone();
    assert_eq!((copy.headers, copy.body), (m.headers, m.body));
    let copy = ModifiedTraffic { headers: None, body: None }.clone();
    assert_eq!((copy.headers, copy.body), (None, None));
}
