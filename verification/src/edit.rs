//! Edits that a user makes to traffic that is held back.
use vstd::prelude::*;
use vstd::string::*;
use vstd::utf8::*;

use base64::Engine;

use crate::headers;
use crate::json;
use crate::json::Json;
use crate::text;

verus! {

broadcast use vstd::string::group_string_axioms;

/// A request or response as edited: new header fields, a new body, either or neither.
#[derive(Debug)]
pub struct ModifiedTraffic {
    pub headers: Option<Vec<(String, String)>>,
    pub body: Option<Vec<u8>>,
}

/// What an edit holds.
#[verifier::ext_equal]
pub struct Edit {
    pub headers: Option<Seq<(Seq<char>, Seq<char>)>>,
    pub body: Option<Seq<u8>>,
}

/// The contents of a list of pairs of strings.
pub open spec fn text_pairs(pairs: Seq<(String, String)>) -> Seq<(Seq<char>, Seq<char>)> {
    Seq::new(pairs.len(), |i: int| (pairs[i].0@, pairs[i].1@))
}

impl View for ModifiedTraffic {
    type V = Edit;

    open spec fn view(&self) -> Edit {
        Edit {
            headers: match self.headers {
                Some(pairs) => Some(text_pairs(pairs@)),
                None => None,
            },
            body: match self.body {
                Some(b) => Some(b@),
                None => None,
            },
        }
    }
}

impl Clone for ModifiedTraffic {
    fn clone(&self) -> (r: Self)
        ensures
            r@ == self@,
    {
        let headers: Option<Vec<(String, String)>> = match &self.headers {
            Some(pairs) => {
                let mut copy: Vec<(String, String)> = Vec::new();
                let mut i: usize = 0;
                while i < pairs.len()
                    invariant
                        i <= pairs@.len(),
                        copy@.len() == i,
                        forall|j: int|
                            0 <= j < i ==> (#[trigger] copy@[j]).0@ == pairs@[j].0@ && copy@[j].1@
                                == pairs@[j].1@,
                    decreases pairs@.len() - i,
                {
                    copy.push((pairs[i].0.clone(), pairs[i].1.clone()));
                    i = i + 1;
                }
                proof {
                    assert(text_pairs(copy@) =~= text_pairs(pairs@));
                }
                Some(copy)
            },
            None => None,
        };
        let body: Option<Vec<u8>> = match &self.body {
            Some(b) => Some(headers::copy_bytes(b)),
            None => None,
        };
        ModifiedTraffic { headers, body }
    }
}

/// A header field of an edited document: each side where it is there and is text.
#[derive(Debug)]
pub struct EditedItem {
    pub name: Option<String>,
    pub value: Option<String>,
}

/// The body of an edited document: each side where it is there and is text.
#[derive(Debug)]
pub struct EditedBody {
    pub encode: Option<String>,
    pub value: Option<String>,
}

/// What is read of an edited document.
#[derive(Debug)]
pub struct EditedPart {
    pub items: Option<Vec<EditedItem>>,
    pub body: Option<EditedBody>,
}

/// Two texts, each of which may be missing.
pub type TextPair = (Option<Seq<char>>, Option<Seq<char>>);

/// What a part of an edited document holds.
#[verifier::ext_equal]
pub struct Part {
    pub items: Option<Seq<TextPair>>,
    pub body: Option<TextPair>,
}

/// The contents of a list of header fields of an edited document.
pub open spec fn item_pairs(items: Seq<EditedItem>) -> Seq<TextPair> {
    Seq::new(
        items.len(),
        |i: int| (text::optional_text(items[i].name), text::optional_text(items[i].value)),
    )
}

impl View for EditedPart {
    type V = Part;

    open spec fn view(&self) -> Part {
        Part {
            items: match self.items {
                Some(items) => Some(item_pairs(items@)),
                None => None,
            },
            body: match self.body {
                Some(body) => Some(
                    (text::optional_text(body.encode), text::optional_text(body.value)),
                ),
                None => None,
            },
        }
    }
}

/// The name and the value of each field in a list.
pub open spec fn listed_items(list: Seq<Json>) -> Seq<TextPair> {
    Seq::new(
        list.len(),
        |i: int| (list[i].text_member("name"@), list[i].text_member("value"@)),
    )
}

/// The part of a document under two keys: the list of fields that the first member has as its
/// `items`, and the `encode` and `value` of the second.
pub open spec fn part_of(doc: Json, headers_key: Seq<char>, body_key: Seq<char>) -> Part {
    Part {
        items: match doc.member(headers_key) {
            Some(headers) => match headers.member("items"@) {
                Some(Json::List(list)) => Some(listed_items(list)),
                _ => None,
            },
            None => None,
        },
        body: match doc.member(body_key) {
            Some(body) => Some((body.text_member("encode"@), body.text_member("value"@))),
            None => None,
        },
    }
}

/// The fields that have both a name and a value.
pub open spec fn complete(items: Seq<TextPair>) -> Seq<(Seq<char>, Seq<char>)>
    decreases items.len(),
{
    if items.len() == 0 {
        Seq::empty()
    } else {
        let rest = complete(items.drop_last());
        match items.last() {
            (Some(name), Some(value)) => rest.push((name, value)),
            _ => rest,
        }
    }
}

/// The bytes that a text encodes in base64.
pub uninterp spec fn base64_bytes(text: Seq<char>) -> Option<Seq<u8>>;

/// A digit of base64.
pub open spec fn base64_digit(n: int) -> char {
    "ABCDEFGHIJKLMNOPQRSTUVWXYZabcdefghijklmnopqrstuvwxyz0123456789+/"@[n]
}

/// Bytes as they are written in base64, padded to fours.
pub open spec fn written_in_base64(b: Seq<u8>) -> Seq<char>
    decreases b.len(),
{
    if b.len() == 0 {
        Seq::empty()
    } else if b.len() == 1 {
        seq![base64_digit(b[0] as int / 4), base64_digit(b[0] % 4 * 16), '=', '=']
    } else if b.len() == 2 {
        seq![
            base64_digit(b[0] as int / 4),
            base64_digit(b[0] % 4 * 16 + b[1] / 16),
            base64_digit(b[1] % 16 * 4),
            '=',
        ]
    } else {
        seq![
            base64_digit(b[0] as int / 4),
            base64_digit(b[0] % 4 * 16 + b[1] / 16),
            base64_digit(b[1] % 16 * 4 + b[2] / 64),
            base64_digit(b[2] as int % 64),
        ] + written_in_base64(b.skip(3))
    }
}

/// Whether a text in which bytes are written in base64 has been read as these bytes.
pub open spec fn reads_base64(text: Seq<char>, decoded: Option<Vec<u8>>) -> bool {
    forall|b: Seq<u8>| #[trigger]
        written_in_base64(b) == text ==> decoded is Some && decoded->0@ == b
}

/// Calls `decode` of `base64::engine::general_purpose::STANDARD`. The bytes, or that there are
/// none, are taken to depend on the text alone, and bytes written in base64 with padding are read
/// back. Of other texts nothing more is claimed.
#[verifier::external_body]
fn decode_base64(text: &str) -> (r: Option<Vec<u8>>)
    ensures
        match r {
            Some(b) => base64_bytes(text@) == Some(b@),
            None => base64_bytes(text@) is None,
        },
        reads_base64(text@, r),
{
    base64::engine::general_purpose::STANDARD.decode(text).ok()
}

/// The text of a body that is written in base64.
pub open spec fn base64_text(body: Option<TextPair>) -> Option<Seq<char>> {
    match body {
        Some((Some(encode), Some(value))) => if encode == "base64"@ {
            Some(value)
        } else {
            None
        },
        _ => None,
    }
}

/// The bytes of a body: those that `decoded` gives where it is written in base64, else those of
/// its text. A body that lacks a side is no body.
pub open spec fn body_bytes(body: Option<TextPair>, decoded: Option<Seq<u8>>) -> Option<Seq<u8>> {
    match body {
        Some((Some(encode), Some(value))) => if encode == "base64"@ {
            decoded
        } else {
            Some(encode_utf8(value))
        },
        _ => None,
    }
}

/// Whether a body holds these bytes: written in base64 where it says so, else as text.
pub open spec fn holds_bytes(body: Option<TextPair>, bytes: Seq<u8>) -> bool {
    match body {
        Some((Some(encode), Some(value))) => if encode == "base64"@ {
            value == written_in_base64(bytes)
        } else {
            encode_utf8(value) == bytes
        },
        _ => false,
    }
}

/// Whether a document holds a body of these bytes under a key.
pub open spec fn holds_body(doc: Option<Json>, key: Seq<char>, bytes: Seq<u8>) -> bool {
    match doc {
        Some(doc) => match doc.member(key) {
            Some(body) => holds_bytes(
                Some((body.text_member("encode"@), body.text_member("value"@))),
                bytes,
            ),
            None => false,
        },
        None => false,
    }
}

/// The edit that a part of a document makes, given what its body decodes to.
pub open spec fn edit_of(part: Part, decoded: Option<Seq<u8>>) -> Edit {
    Edit {
        headers: match part.items {
            Some(items) => Some(complete(items)),
            None => None,
        },
        body: body_bytes(part.body, decoded),
    }
}

/// What the body of a part decodes to, where it is written in base64.
pub open spec fn decoded_body(part: Part) -> Option<Seq<u8>> {
    match base64_text(part.body) {
        Some(text) => base64_bytes(text),
        None => None,
    }
}

/// The edit that a text makes under two keys: none where it is no JSON.
pub open spec fn edit_under(
    doc: Option<Json>,
    headers_key: Seq<char>,
    body_key: Seq<char>,
) -> Option<Edit> {
    match doc {
        Some(doc) => {
            let part = part_of(doc, headers_key, body_key);
            Some(edit_of(part, decoded_body(part)))
        },
        None => None,
    }
}

fn own_text(s: Option<&str>) -> (r: Option<String>)
    ensures
        match s {
            Some(s) => text::optional_text(r) == Some(s@),
            None => r is None,
        },
{
    match s {
        Some(s) => Some(s.to_owned()),
        None => None,
    }
}

/// Reads the part of a document under two keys.
pub fn read_part(doc: &serde_json::Value, headers_key: &str, body_key: &str) -> (r: EditedPart)
    ensures
        r@ == part_of(json::json_view(*doc), headers_key@, body_key@),
{
    let items: Option<Vec<EditedItem>> = match json::get(doc, headers_key) {
        Some(headers) => match json::get(headers, "items") {
            Some(items) => match json::as_list(items) {
                Some(list) => Some(read_items(list)),
                None => None,
            },
            None => None,
        },
        None => None,
    };
    let body: Option<EditedBody> = match json::get(doc, body_key) {
        Some(body) => Some(
            EditedBody {
                encode: own_text(json::text_member(body, "encode")),
                value: own_text(json::text_member(body, "value")),
            },
        ),
        None => None,
    };
    EditedPart { items, body }
}

fn read_items(list: &Vec<serde_json::Value>) -> (r: Vec<EditedItem>)
    ensures
        item_pairs(r@) == listed_items(json::json_views(list@)),
{
    let mut r: Vec<EditedItem> = Vec::new();
    let mut i: usize = 0;
    while i < list.len()
        invariant
            i <= list@.len(),
            r@.len() == i,
            forall|j: int|
                0 <= j < i ==> (
                    text::optional_text((#[trigger] r@[j]).name),
                    text::optional_text(r@[j].value),
                ) == listed_items(json::json_views(list@))[j],
        decreases list@.len() - i,
    {
        let item: EditedItem = EditedItem {
            name: own_text(json::text_member(&list[i], "name")),
            value: own_text(json::text_member(&list[i], "value")),
        };
        r.push(item);
        i = i + 1;
    }
    proof {
        assert(item_pairs(r@) =~= listed_items(json::json_views(list@)));
    }
    r
}

fn complete_items(items: Vec<EditedItem>) -> (r: Vec<(String, String)>)
    ensures
        text_pairs(r@) == complete(item_pairs(items@)),
{
    let mut r: Vec<(String, String)> = Vec::new();
    let mut i: usize = 0;
    let ghost pairs = item_pairs(items@);
    proof {
        assert(text_pairs(r@) =~= complete(pairs.take(0)));
    }
    while i < items.len()
        invariant
            i <= items@.len(),
            pairs == item_pairs(items@),
            text_pairs(r@) == complete(pairs.take(i as int)),
        decreases items@.len() - i,
    {
        let ghost before = r@;
        proof {
            assert(pairs.take(i + 1).drop_last() =~= pairs.take(i as int));
            assert(pairs.take(i + 1).last() == pairs[i as int]);
        }
        match (&items[i].name, &items[i].value) {
            (Some(name), Some(value)) => {
                let pair: (String, String) = (name.clone(), value.clone());
                r.push(pair);
                proof {
                    assert(text_pairs(r@) =~= text_pairs(before).push((name@, value@)));
                }
            },
            _ => {},
        }
        i = i + 1;
    }
    proof {
        assert(pairs.take(i as int) =~= pairs);
    }
    r
}

impl ModifiedTraffic {
    /// The edit that a part of a document makes.
    pub fn from_part(part: EditedPart) -> (r: Self)
        ensures
            r@ == edit_of(part@, decoded_body(part@)),
            forall|bytes: Seq<u8>| #[trigger]
                holds_bytes(part@.body, bytes) ==> r@.body == Some(bytes),
    {
        let decoded: Option<Vec<u8>> = match &part.body {
            Some(body) => match (&body.encode, &body.value) {
                (Some(encode), Some(value)) => if crate::text::same(encode.as_str(), "base64") {
                    decode_base64(value.as_str())
                } else {
                    None
                },
                _ => None,
            },
            None => None,
        };
        Self::from_decoded(part, decoded)
    }

    /// The edit that a part of a document makes, given what its body decodes to.
    pub fn from_decoded(part: EditedPart, decoded: Option<Vec<u8>>) -> (r: Self)
        ensures
            r@ == edit_of(
                part@,
                match decoded {
                    Some(b) => Some(b@),
                    None => None,
                },
            ),
    {
        let body: Option<Vec<u8>> = match &part.body {
            Some(body) => match (&body.encode, &body.value) {
                (Some(encode), Some(value)) => if crate::text::same(encode.as_str(), "base64") {
                    decoded
                } else {
                    Some(value.as_str().as_bytes_vec())
                },
                _ => None,
            },
            None => None,
        };
        let headers: Option<Vec<(String, String)>> = match part.items {
            Some(items) => Some(complete_items(items)),
            None => None,
        };
        ModifiedTraffic { headers, body }
    }

    /// The edit that an edited request makes, where it is JSON.
    pub fn from_edited_json_req(json: &str) -> (r: Option<Self>)
        ensures
            match r {
                Some(m) => edit_under(json::json_of(json@), "req_headers"@, "req_body"@) == Some(
                    m@,
                ),
                None => edit_under(json::json_of(json@), "req_headers"@, "req_body"@) is None,
            },
            forall|bytes: Seq<u8>| #[trigger]
                holds_body(json::json_of(json@), "req_body"@, bytes) ==> r is Some && r->0@.body
                    == Some(bytes),
    {
        match json::read(json) {
            Some(doc) => Some(Self::from_part(read_part(&doc, "req_headers", "req_body"))),
            None => None,
        }
    }

    /// The edit that an edited response makes, where it is JSON.
    pub fn from_edited_json_res(json: &str) -> (r: Option<Self>)
        ensures
            match r {
                Some(m) => edit_under(json::json_of(json@), "res_headers"@, "res_body"@) == Some(
                    m@,
                ),
                None => edit_under(json::json_of(json@), "res_headers"@, "res_body"@) is None,
            },
            forall|bytes: Seq<u8>| #[trigger]
                holds_body(json::json_of(json@), "res_body"@, bytes) ==> r is Some && r->0@.body
                    == Some(bytes),
    {
        match json::read(json) {
            Some(doc) => Some(Self::from_part(read_part(&doc, "res_headers", "res_body"))),
            None => None,
        }
    }
}

/// A document that names neither the header fields nor the body edits nothing.
pub proof fn law_silent_document_edits_nothing(
    doc: Json,
    headers_key: Seq<char>,
    body_key: Seq<char>,
)
    requires
        doc.member(headers_key) is None,
        doc.member(body_key) is None,
    ensures
        edit_under(Some(doc), headers_key, body_key) == Some(Edit { headers: None, body: None }),
{
}

/// An edited field counts exactly where both of its sides are there: the edit has as many fields
/// as the document has complete ones, and each of them is one of those.
pub proof fn law_edited_fields_are_complete_ones(items: Seq<TextPair>)
    ensures
        complete(items).len() <= items.len(),
        forall|i: int|
            0 <= i < complete(items).len() ==> items.contains(
                (Some((#[trigger] complete(items)[i]).0), Some(complete(items)[i].1)),
            ),
        forall|j: int|
            0 <= j < items.len() && (#[trigger] items[j]).0 is Some && items[j].1 is Some
                ==> complete(items).contains((items[j].0->0, items[j].1->0)),
    decreases items.len(),
{
    if items.len() > 0 {
        let rest = items.drop_last();
        law_edited_fields_are_complete_ones(rest);
        let all = complete(items);
        assert forall|i: int| 0 <= i < all.len() implies items.contains(
            (Some((#[trigger] all[i]).0), Some(all[i].1)),
        ) by {
            if i < complete(rest).len() {
                let pair = (Some(complete(rest)[i].0), Some(complete(rest)[i].1));
                let k = rest.index_of(pair);
                assert(items[k] == pair);
            } else {
                assert(items[items.len() - 1] == items.last());
            }
        }
        assert forall|j: int|
            0 <= j < items.len() && (#[trigger] items[j]).0 is Some && items[j].1 is Some implies
            all.contains((items[j].0->0, items[j].1->0)) by {
            let pair = (items[j].0->0, items[j].1->0);
            if j < rest.len() {
                assert(rest[j] == items[j]);
                let k = complete(rest).index_of(pair);
                assert(all[k] == pair);
            } else {
                assert(all[all.len() - 1] == pair);
            }
        }
    }
}

/// The fields of an edit keep the order of the document: what two lists give, one behind the other,
/// is what each gives. A field alone is given as it is where both of its sides are there, and else
/// not at all.
pub proof fn law_edited_fields_come_in_order(
    first: Seq<TextPair>,
    second: Seq<TextPair>,
    name: Seq<char>,
    value: Seq<char>,
)
    ensures
        complete(first + second) == complete(first) + complete(second),
        complete(seq![(Some(name), Some(value))]) == seq![(name, value)],
        complete(seq![(None, Some(value))]).len() == 0,
        complete(seq![(Some(name), None)]).len() == 0,
        complete(seq![(None, None)]).len() == 0,
    decreases second.len(),
{
    reveal_with_fuel(complete, 2);
    let whole: Seq<TextPair> = seq![(Some(name), Some(value))];
    let unnamed: Seq<TextPair> = seq![(None, Some(value))];
    let unset: Seq<TextPair> = seq![(Some(name), None)];
    let empty: Seq<TextPair> = seq![(None, None)];
    assert(whole.drop_last() =~= Seq::empty());
    assert(unnamed.drop_last() =~= Seq::empty());
    assert(unset.drop_last() =~= Seq::empty());
    assert(empty.drop_last() =~= Seq::empty());
    assert(complete(whole) =~= seq![(name, value)]);
    let all = first + second;
    if second.len() == 0 {
        assert(all =~= first);
        assert(complete(first) + complete(second) =~= complete(first));
    } else {
        law_edited_fields_come_in_order(first, second.drop_last(), name, value);
        assert(all.drop_last() =~= first + second.drop_last());
        assert(all.last() == second.last());
        assert(complete(all) =~= complete(first) + complete(second));
    }
}

/// A body is read as it says that it is written: in base64 as what this decodes to, and in every
/// other encoding as its text. A body that lacks a side is none, and so is one in base64 that does
/// not decode.
pub proof fn law_bodies_are_read_as_they_are_written(
    encode: Seq<char>,
    value: Seq<char>,
    decoded: Option<Seq<u8>>,
    items: Option<Seq<TextPair>>,
    side: Option<Seq<char>>,
)
    ensures
        edit_of(Part { items, body: Some((Some(encode), Some(value))) }, decoded).body == (if encode
            == "base64"@ {
            decoded
        } else {
            Some(encode_utf8(value))
        }),
        edit_of(Part { items, body: Some((None, side)) }, decoded).body is None,
        edit_of(Part { items, body: Some((side, None)) }, decoded).body is None,
        edit_of(Part { items, body: None }, decoded).body is None,
        decoded_body(Part { items, body: Some((Some(encode), Some(value))) }) == (if encode
            == "base64"@ {
            base64_bytes(value)
        } else {
            None
        }),
{
}

/// The fields of an edit are the complete ones of the document, where it lists any; the body has no
/// part in them.
pub proof fn law_fields_and_body_are_edited_apart(
    part: Part,
    other: Part,
    decoded: Option<Seq<u8>>,
    other_decoded: Option<Seq<u8>>,
)
    requires
        other.items == part.items,
    ensures
        edit_of(part, decoded).headers == edit_of(other, other_decoded).headers,
        edit_of(part, decoded).headers is Some <==> part.items is Some,
        part.items matches Some(items) ==> edit_of(part, decoded).headers == Some(complete(items)),
{
}

/// A document is read under its two keys: the fields are the `items` of the one, each with its
/// `name` and its `value`, the body is the `encode` and the `value` of the other. What is missing,
/// or is no list or no text, is not there.
pub proof fn law_documents_are_read_under_their_keys(
    members: Map<Seq<char>, Json>,
    headers_key: Seq<char>,
    body_key: Seq<char>,
    listed: Map<Seq<char>, Json>,
    body: Map<Seq<char>, Json>,
    list: Seq<Json>,
    i: int,
)
    requires
        members.contains_key(headers_key),
        members[headers_key] == Json::Object(listed),
        members.contains_key(body_key),
        members[body_key] == Json::Object(body),
    ensures
        ({
            let part = part_of(Json::Object(members), headers_key, body_key);
            &&& listed.contains_key("items"@) && listed["items"@] == Json::List(list) ==> {
                &&& part.items is Some
                &&& part.items->0.len() == list.len()
                &&& 0 <= i < list.len() ==> part.items->0[i] == (
                    list[i].text_member("name"@),
                    list[i].text_member("value"@),
                )
            }
            &&& !listed.contains_key("items"@) || !(listed["items"@] is List) ==> part.items is None
            &&& part.body == Some(
                (
                    Json::Object(body).text_member("encode"@),
                    Json::Object(body).text_member("value"@),
                ),
            )
        }),
        edit_under(None, headers_key, body_key) is None,
        edit_under(Some(Json::Object(members)), headers_key, body_key) is Some,
{
}

/// An edit holds the fields and the body of the edited traffic, each pair as it is.
pub proof fn law_edits_hold_the_modified_traffic(m: ModifiedTraffic, i: int)
    ensures
        m@.headers is Some <==> m.headers is Some,
        m@.body is Some <==> m.body is Some,
        m.body matches Some(b) ==> m@.body == Some(b@),
        m.headers matches Some(pairs) ==> {
            &&& m@.headers->0.len() == pairs@.len()
            &&& 0 <= i < pairs@.len() ==> m@.headers->0[i] == (pairs@[i].0@, pairs@[i].1@)
        },
{
}

/// What a document does not name is not edited: without the member for the fields, or without a
/// list in it, the fields stay, and without the member for the body the body does, each whatever
/// the other is.
pub proof fn law_what_is_not_named_is_not_edited(
    doc: Json,
    headers_key: Seq<char>,
    body_key: Seq<char>,
)
    ensures
        edit_under(Some(doc), headers_key, body_key) is Some,
        doc.member(headers_key) is None || !(doc.member(headers_key)->0 is Object) ==> edit_under(
            Some(doc),
            headers_key,
            body_key,
        )->0.headers is None,
        doc.member(body_key) is None || !(doc.member(body_key)->0 is Object) ==> edit_under(
            Some(doc),
            headers_key,
            body_key,
        )->0.body is None,
{
}

} // verus!
