//! Header fields: reading them, passing them on, and replacing them by edited ones.
use vstd::prelude::*;
use vstd::string::*;
use vstd::utf8::*;

use crate::edit::{Edit, ModifiedTraffic};
use crate::text;

verus! {

broadcast use vstd::string::group_string_axioms;

#[verifier::external_type_specification]
#[verifier::external_body]
#[verifier::reject_recursive_types(T)]
pub struct ExHeaderMap<T>(http::HeaderMap<T>);

#[verifier::external_type_specification]
#[verifier::external_body]
pub struct ExHeaderValue(http::HeaderValue);

/// Header fields: of each name that occurs, its values in order.
pub type Fields = Map<Seq<char>, Seq<Seq<u8>>>;

/// No fields at all.
pub open spec fn no_fields() -> Fields {
    Map::empty()
}

/// The fields of a header map: of each name that occurs, its values in order.
pub uninterp spec fn header_fields(m: http::HeaderMap<http::HeaderValue>) -> Fields;

/// A header map with no more names than this takes one more without fail, however its hash table
/// is filled.
pub const NAMES_MAX: usize = 6553;

/// The values of a name: none where it does not occur.
pub open spec fn values_at(fields: Fields, name: Seq<char>) -> Seq<Seq<u8>> {
    if fields.contains_key(name) {
        fields[name]
    } else {
        Seq::empty()
    }
}

/// A character that may stand in a header name.
pub open spec fn is_token(c: char) -> bool {
    ||| 'a' <= c <= 'z'
    ||| 'A' <= c <= 'Z'
    ||| '0' <= c <= '9'
    ||| c == '!'
    ||| c == '#'
    ||| c == '$'
    ||| c == '%'
    ||| c == '&'
    ||| c == '\''
    ||| c == '*'
    ||| c == '+'
    ||| c == '-'
    ||| c == '.'
    ||| c == '^'
    ||| c == '_'
    ||| c == '`'
    ||| c == '|'
    ||| c == '~'
}

/// Whether a text is a header name.
pub open spec fn is_name(s: Seq<char>) -> bool {
    1 <= s.len() <= 65535 && forall|i: int| 0 <= i < s.len() ==> is_token(#[trigger] s[i])
}

/// A character that may stand in a name as a header map holds it: no capital, and the double quote
/// besides, which the later versions of HTTP let through.
pub open spec fn is_stored_char(c: char) -> bool {
    is_token(c) && !('A' <= c <= 'Z') || c == '"'
}

/// Whether a text is a name as a header map holds it.
pub open spec fn is_stored_name(s: Seq<char>) -> bool {
    1 <= s.len() <= 65535 && forall|i: int| 0 <= i < s.len() ==> is_stored_char(#[trigger] s[i])
}

/// Whether bytes are the value of a header: no control characters but the tab.
pub open spec fn is_value(b: Seq<u8>) -> bool {
    forall|i: int| 0 <= i < b.len() ==> (#[trigger] b[i] >= 32 && b[i] != 127 || b[i] == 9)
}

/// Whether bytes are printable ASCII.
pub open spec fn is_visible(b: Seq<u8>) -> bool {
    forall|i: int| 0 <= i < b.len() ==> (32 <= #[trigger] b[i] < 127 || b[i] == 9)
}

/// Calls `http::HeaderMap::new`: a map without fields.
#[verifier::external_body]
pub(crate) fn new_map() -> (r: http::HeaderMap)
    ensures
        header_fields(r) == no_fields(),
{
    http::HeaderMap::new()
}

/// Calls `http::HeaderMap::clear`, which takes every field out.
#[verifier::external_body]
pub(crate) fn clear(m: &mut http::HeaderMap)
    ensures
        header_fields(*final(m)) == no_fields(),
{
    m.clear()
}

/// Calls `http::HeaderMap::insert`: the name then has this value alone, and the other names are
/// untouched.
#[verifier::external_body]
pub(crate) fn insert(m: &mut http::HeaderMap, name: &str, value: &[u8])
    requires
        is_stored_name(name@),
        is_value(value@),
        header_fields(*old(m)).dom().len() <= NAMES_MAX,
    ensures
        header_fields(*final(m)) == header_fields(*old(m)).insert(name@, seq![value@]),
{
    let name = http::HeaderName::from_lowercase(name.as_bytes()).expect("a header name");
    let value = http::HeaderValue::from_bytes(value).expect("a header value");
    m.insert(name, value);
}

/// Calls `http::HeaderMap::append`: the value comes behind those that the name has, and the other
/// names are untouched.
#[verifier::external_body]
pub(crate) fn append(m: &mut http::HeaderMap, name: &str, value: &[u8])
    requires
        is_stored_name(name@),
        is_value(value@),
        header_fields(*old(m)).dom().len() <= NAMES_MAX,
    ensures
        header_fields(*final(m)) == header_fields(*old(m)).insert(
            name@,
            values_at(header_fields(*old(m)), name@).push(value@),
        ),
{
    let name = http::HeaderName::from_lowercase(name.as_bytes()).expect("a header name");
    let value = http::HeaderValue::from_bytes(value).expect("a header value");
    m.append(name, value);
}

/// Calls `http::HeaderMap::remove`, which takes out all values of a name.
#[verifier::external_body]
pub(crate) fn remove(m: &mut http::HeaderMap, name: &str)
    requires
        is_stored_name(name@),
    ensures
        header_fields(*final(m)) == header_fields(*old(m)).remove(name@),
{
    let name = http::HeaderName::from_lowercase(name.as_bytes()).expect("a header name");
    m.remove(name);
}

/// Calls `http::HeaderMap::keys_len`, which counts the names.
#[verifier::external_body]
pub(crate) fn names_len(m: &http::HeaderMap) -> (r: usize)
    ensures
        r == header_fields(*m).dom().len(),
{
    m.keys_len()
}

/// Whether a map has no more names than another map takes over without fail.
pub fn names_fit(m: &http::HeaderMap) -> (r: bool)
    ensures
        r == (header_fields(*m).dom().len() <= NAMES_MAX),
{
    names_len(m) <= NAMES_MAX
}

/// A header field.
#[derive(Debug)]
pub struct Header {
    pub name: String,
    pub value: Vec<u8>,
}

impl View for Header {
    type V = (Seq<char>, Seq<u8>);

    open spec fn view(&self) -> (Seq<char>, Seq<u8>) {
        (self.name@, self.value@)
    }
}

/// The contents of a list of header fields.
pub open spec fn listed(list: Seq<Header>) -> Seq<(Seq<char>, Seq<u8>)> {
    Seq::new(list.len(), |i: int| list[i]@)
}

/// The values that a list of header fields gives a name, in order.
pub open spec fn listed_values(list: Seq<(Seq<char>, Seq<u8>)>, name: Seq<char>) -> Seq<Seq<u8>>
    decreases list.len(),
{
    if list.len() == 0 {
        Seq::empty()
    } else if list.last().0 == name {
        listed_values(list.drop_last(), name).push(list.last().1)
    } else {
        listed_values(list.drop_last(), name)
    }
}

/// Whether a list holds the fields of a map and nothing else: of each name its values in their
/// order, whatever the order of the names. A map has finitely many names, each with one or more
/// values.
pub open spec fn lists(
    fields: Fields,
    list: Seq<(Seq<char>, Seq<u8>)>,
) -> bool {
    &&& fields.dom().finite()
    &&& forall|name: Seq<char>| #[trigger]
        fields.contains_key(name) ==> fields[name].len() > 0
    &&& forall|name: Seq<char>| #[trigger]
        listed_values(list, name) == values_at(fields, name)
    &&& forall|i: int|
        0 <= i < list.len() ==> is_stored_name((#[trigger] list[i]).0) && is_value(list[i].1)
}

/// Calls `http::HeaderMap::iter`. The order of the names is left open; each name comes once with
/// each of its values, and these come in their order.
#[verifier::external_body]
pub(crate) fn fields(m: &http::HeaderMap) -> (r: Vec<Header>)
    ensures
        lists(header_fields(*m), listed(r@)),
{
    m.iter().map(|(k, v)| Header { name: k.to_string(), value: v.as_bytes().to_vec() }).collect()
}

/// Calls `http::HeaderName::from_bytes`: a text is a name or it is not, and a name comes back in
/// small letters.
#[verifier::external_body]
pub(crate) fn read_name(name: &str) -> (r: Option<String>)
    ensures
        match r {
            Some(n) => is_name(name@) && n@ == text::small(name@),
            None => !is_name(name@),
        },
{
    http::HeaderName::from_bytes(name.as_bytes()).ok().map(|n| n.as_str().to_owned())
}

/// Calls `http::HeaderValue::from_str`: the bytes of a text are a value or they are not.
#[verifier::external_body]
pub(crate) fn read_value(value: &str) -> (r: Option<Vec<u8>>)
    ensures
        match r {
            Some(b) => is_value(encode_utf8(value@)) && b@ == encode_utf8(value@),
            None => !is_value(encode_utf8(value@)),
        },
{
    http::HeaderValue::from_str(value).ok().map(|v| v.as_bytes().to_vec())
}

/// Printable ASCII as text.
pub open spec fn ascii_text(b: Seq<u8>) -> Seq<char> {
    Seq::new(b.len(), |i: int| b[i] as char)
}

/// The text of a value, where it is printable ASCII.
pub open spec fn value_text(b: Seq<u8>) -> Option<Seq<char>> {
    if is_visible(b) {
        Some(ascii_text(b))
    } else {
        None
    }
}

/// Calls `http::HeaderValue::to_str`, which gives text for printable ASCII alone.
#[verifier::external_body]
pub(crate) fn show_value(value: &[u8]) -> (r: Option<String>)
    requires
        is_value(value@),
    ensures
        match r {
            Some(s) => value_text(value@) == Some(s@),
            None => value_text(value@) is None,
        },
{
    let value = http::HeaderValue::from_bytes(value).expect("a header value");
    value.to_str().ok().map(|s| s.to_owned())
}

/// The two ways in which a request goes on to its destination.
#[derive(Clone, Copy, Debug, PartialEq, Eq, Structural)]
pub enum Leg {
    Http,
    Websocket,
}

impl Leg {
    /// The names that concern the connection to the client and do not go on to the destination.
    pub open spec fn withholds(self, name: Seq<char>) -> bool {
        ||| name == "host"@
        ||| name == "connection"@
        ||| name == "proxy-authorization"@
        ||| match self {
            Leg::Http => {
                ||| name == "transfer-encoding"@
                ||| name == "upgrade"@
                ||| name == "te"@
                ||| name == "keep-alive"@
                ||| name == "proxy-connection"@
            },
            Leg::Websocket => {
                ||| name == "sec-websocket-key"@
                ||| name == "sec-websocket-version"@
                ||| name == "sec-websocket-extensions"@
            },
        }
    }

    fn is_withheld(&self, name: &str) -> (r: bool)
        ensures
            r == self.withholds(name@),
    {
        if text::same(name, "host") || text::same(name, "connection") || text::same(
            name,
            "proxy-authorization",
        ) {
            return true;
        }
        match self {
            Leg::Http => text::same(name, "transfer-encoding") || text::same(name, "upgrade")
                || text::same(name, "te") || text::same(name, "keep-alive") || text::same(
                name,
                "proxy-connection",
            ),
            Leg::Websocket => text::same(name, "sec-websocket-key") || text::same(
                name,
                "sec-websocket-version",
            ) || text::same(name, "sec-websocket-extensions"),
        }
    }
}

/// The fields that go on to the destination: all values of every name that is not withheld.
pub open spec fn passed_on(fields: Fields, leg: Leg) -> Fields {
    Map::new(
        |name: Seq<char>| fields.contains_key(name) && !leg.withholds(name),
        |name: Seq<char>| fields[name],
    )
}

/// A copy of a value.
pub(crate) fn copy_bytes(b: &Vec<u8>) -> (r: Vec<u8>)
    ensures
        r@ == b@,
{
    let r: Vec<u8> = b.clone();
    proof {
        assert(r@ =~= b@);
    }
    r
}

impl Clone for Header {
    fn clone(&self) -> (r: Self)
        ensures
            r@ == self@,
    {
        Header { name: self.name.clone(), value: copy_bytes(&self.value) }
    }
}

/// The fields of a request that go on to the destination.
pub fn forwarded_headers(m: &http::HeaderMap, leg: Leg) -> (r: Vec<Header>)
    ensures
        lists(passed_on(header_fields(*m), leg), listed(r@)),
{
    let all: Vec<Header> = fields(m);
    let mut r: Vec<Header> = Vec::new();
    let mut i: usize = 0;
    let ghost list = listed(all@);
    while i < all.len()
        invariant
            i <= all@.len(),
            list == listed(all@),
            lists(header_fields(*m), list),
            forall|j: int|
                0 <= j < r@.len() ==> is_stored_name((#[trigger] r@[j]).name@) && is_value(
                    r@[j].value@,
                ),
            forall|name: Seq<char>| #[trigger]
                listed_values(listed(r@), name) == (if leg.withholds(name) {
                    Seq::empty()
                } else {
                    listed_values(list.take(i as int), name)
                }),
        decreases all@.len() - i,
    {
        let ghost before = r@;
        let ghost field = list[i as int];
        proof {
            assert(list.take(i + 1).drop_last() =~= list.take(i as int));
            assert(list.take(i + 1).last() == field);
            assert(is_stored_name(field.0));
        }
        if !leg.is_withheld(all[i].name.as_str()) {
            let copy: Header = all[i].clone();
            r.push(copy);
            proof {
                assert(listed(r@) =~= listed(before).push(field));
                assert(listed(r@).drop_last() =~= listed(before));
            }
        }
        proof {
            assert forall|name: Seq<char>| #[trigger]
                listed_values(listed(r@), name) == (if leg.withholds(name) {
                    Seq::empty()
                } else {
                    listed_values(list.take(i + 1), name)
                }) by {
                assert(listed_values(listed(before), name) == (if leg.withholds(name) {
                    Seq::empty()
                } else {
                    listed_values(list.take(i as int), name)
                }));
            }
        }
        i = i + 1;
    }
    proof {
        assert(list.take(i as int) =~= list);
        let kept = passed_on(header_fields(*m), leg);
        let stays = Set::new(|name: Seq<char>| !leg.withholds(name));
        assert(kept.dom() =~= header_fields(*m).dom().intersect(stays));
        assert forall|j: int| 0 <= j < listed(r@).len() implies is_stored_name(
            (#[trigger] listed(r@)[j]).0,
        ) && is_value(listed(r@)[j].1) by {
            assert(is_stored_name(r@[j].name@));
        }
    }
    r
}

/// The text of the first of some values, or nothing where there is none or it is no text.
pub open spec fn first_text(values: Seq<Seq<u8>>) -> Seq<char> {
    if values.len() > 0 && value_text(values[0]) is Some {
        value_text(values[0])->0
    } else {
        Seq::empty()
    }
}

/// The text of the last of some values, or nothing where there is none or it is no text.
pub open spec fn last_text(values: Seq<Seq<u8>>) -> Seq<char> {
    if values.len() > 0 && value_text(values.last()) is Some {
        value_text(values.last())->0
    } else {
        Seq::empty()
    }
}

proof fn lemma_listed_prefix(list: Seq<(Seq<char>, Seq<u8>)>, k: int, name: Seq<char>)
    requires
        0 <= k <= list.len(),
        listed_values(list.take(k), name).len() > 0,
    ensures
        listed_values(list, name).len() > 0,
        listed_values(list, name)[0] == listed_values(list.take(k), name)[0],
    decreases list.len() - k,
{
    if k == list.len() {
        assert(list.take(k) =~= list);
    } else {
        assert(list.take(k + 1).drop_last() =~= list.take(k));
        lemma_listed_prefix(list, k + 1, name);
    }
}

/// The media type that fields declare, as text.
pub open spec fn declared_media(fields: Fields) -> Seq<char> {
    first_text(values_at(fields, "content-type"@))
}

/// The media type that a header declares, as text.
pub fn content_type(m: &http::HeaderMap) -> (r: String)
    ensures
        r@ == declared_media(header_fields(*m)),
        r@ == first_text(values_at(header_fields(*m), "content-type"@)),
{
    let all: Vec<Header> = fields(m);
    let mut i: usize = 0;
    let ghost list = listed(all@);
    while i < all.len()
        invariant
            i <= all@.len(),
            list == listed(all@),
            lists(header_fields(*m), list),
            listed_values(list.take(i as int), "content-type"@).len() == 0,
        decreases all@.len() - i,
    {
        proof {
            assert(list.take(i + 1).drop_last() =~= list.take(i as int));
            assert(list.take(i + 1).last() == list[i as int]);
            assert(is_stored_name(list[i as int].0));
        }
        if text::same(all[i].name.as_str(), "content-type") {
            proof {
                lemma_listed_prefix(list, i + 1, "content-type"@);
            }
            return match show_value(all[i].value.as_slice()) {
                Some(s) => s,
                None => String::new(),
            };
        }
        i = i + 1;
    }
    proof {
        assert(list.take(i as int) =~= list);
        assert(listed_values(list, "content-type"@) == values_at(
            header_fields(*m),
            "content-type"@,
        ));
    }
    String::new()
}

/// The fields of a response as they reach the client: of each name its last value alone.
pub open spec fn last_values(fields: Fields) -> Fields {
    Map::new(
        |name: Seq<char>| fields.contains_key(name),
        |name: Seq<char>| seq![fields[name].last()],
    )
}

/// Takes over the fields of a response, and finds the encoding of its body.
pub fn response_headers(m: &http::HeaderMap) -> (r: (http::HeaderMap, String))
    requires
        header_fields(*m).dom().len() <= NAMES_MAX,
    ensures
        header_fields(r.0) == last_values(header_fields(*m)),
        r.1@ == last_text(values_at(header_fields(*m), "content-encoding"@)),
{
    let all: Vec<Header> = fields(m);
    let mut out: http::HeaderMap = new_map();
    let mut encoding: String = String::new();
    let mut i: usize = 0;
    let ghost list = listed(all@);
    let ghost source = header_fields(*m);
    while i < all.len()
        invariant
            i <= all@.len(),
            list == listed(all@),
            source == header_fields(*m),
            lists(source, list),
            source.dom().len() <= NAMES_MAX,
            header_fields(out).dom().subset_of(source.dom()),
            forall|name: Seq<char>| #[trigger]
                header_fields(out).contains_key(name) <==> listed_values(
                    list.take(i as int),
                    name,
                ).len() > 0,
            forall|name: Seq<char>| #[trigger]
                header_fields(out).contains_key(name) ==> header_fields(out)[name] == seq![
                    listed_values(list.take(i as int), name).last(),
                ],
            encoding@ == last_text(listed_values(list.take(i as int), "content-encoding"@)),
        decreases all@.len() - i,
    {
        let ghost field = list[i as int];
        proof {
            assert(list.take(i + 1).drop_last() =~= list.take(i as int));
            assert(list.take(i + 1).last() == field);
            assert(is_stored_name(field.0));
            lemma_listed_prefix(list, i + 1, field.0);
            assert(listed_values(list, field.0) == values_at(source, field.0));
            vstd::set_lib::lemma_len_subset(header_fields(out).dom(), source.dom());
        }
        if text::same(all[i].name.as_str(), "content-encoding") {
            encoding =
            match show_value(all[i].value.as_slice()) {
                Some(s) => s,
                None => String::new(),
            };
        }
        insert(&mut out, all[i].name.as_str(), all[i].value.as_slice());
        i = i + 1;
    }
    proof {
        assert(list.take(i as int) =~= list);
        assert forall|name: Seq<char>| #[trigger]
            source.contains_key(name) <==> header_fields(out).contains_key(name) by {
            assert(listed_values(list, name) == values_at(source, name));
        }
        assert forall|name: Seq<char>| #[trigger]
            header_fields(out).contains_key(name) implies header_fields(out)[name] == last_values(
            source,
        )[name] by {
            assert(listed_values(list, name) == values_at(source, name));
        }
        assert(header_fields(out) =~= last_values(source));
        assert(listed_values(list, "content-encoding"@) == values_at(
            source,
            "content-encoding"@,
        ));
    }
    (out, encoding)
}

/// Fields with one more, put in where it is well formed: the name is taken in small letters, the
/// value comes behind those that the name has.
pub open spec fn with_field(fields: Fields, name: Seq<char>, value: Seq<char>) -> Fields {
    if is_name(name) && is_value(encode_utf8(value)) {
        fields.insert(text::small(name), values_at(fields, text::small(name)).push(encode_utf8(value)))
    } else {
        fields
    }
}

/// The fields that a list gives.
pub open spec fn rebuilt(list: Seq<(Seq<char>, Seq<char>)>) -> Fields
    decreases list.len(),
{
    if list.len() == 0 {
        no_fields()
    } else {
        with_field(rebuilt(list.drop_last()), list.last().0, list.last().1)
    }
}

/// The fields after an edit. New fields replace all of the old ones; a new body takes the encoding
/// and the length of the old body with it.
pub open spec fn edited_fields(fields: Fields, edit: Edit) -> Fields {
    let given = match edit.headers {
        Some(list) => rebuilt(list),
        None => fields,
    };
    if edit.body is Some {
        given.remove("content-encoding"@).remove("content-length"@)
    } else {
        given
    }
}

/// Whether an edit has no more names than a header map takes.
pub open spec fn fits(edit: Edit) -> bool {
    edit.headers matches Some(list) ==> rebuilt(list).dom().len() <= NAMES_MAX
}

/// Whether an edit is so short that it has no more names than a header map takes.
pub fn is_short(edit: &ModifiedTraffic) -> (r: bool)
    ensures
        r == (edit.headers matches Some(list) ==> list@.len() <= NAMES_MAX),
        r ==> fits(edit@),
{
    match &edit.headers {
        Some(list) => {
            proof {
                if list@.len() <= NAMES_MAX {
                    law_short_edit_fits(crate::edit::text_pairs(list@), edit@.body);
                }
            }
            list.len() <= NAMES_MAX
        },
        None => true,
    }
}

proof fn lemma_stored_name(s: Seq<char>)
    requires
        is_name(s),
    ensures
        is_stored_name(text::small(s)),
{
    let t = text::small(s);
    assert forall|i: int| 0 <= i < t.len() implies is_stored_char(#[trigger] t[i]) by {
        assert(is_token(s[i]));
    }
}

proof fn lemma_rebuilt_grows(list: Seq<(Seq<char>, Seq<char>)>, k: int)
    requires
        0 <= k <= list.len(),
    ensures
        rebuilt(list.take(k)).dom().subset_of(rebuilt(list).dom()),
        rebuilt(list).dom().finite(),
    decreases list.len(),
{
    if k == list.len() {
        assert(list.take(k) =~= list);
        if list.len() > 0 {
            lemma_rebuilt_grows(list.drop_last(), list.len() - 1);
        }
    } else {
        lemma_rebuilt_grows(list.drop_last(), k);
        assert(list.drop_last().take(k) =~= list.take(k));
    }
}

/// A list of fields gives no more names than it has fields: an edit with at most `NAMES_MAX`
/// fields fits.
pub proof fn law_short_edit_fits(list: Seq<(Seq<char>, Seq<char>)>, body: Option<Seq<u8>>)
    requires
        list.len() <= NAMES_MAX,
    ensures
        fits(Edit { headers: Some(list), body }),
        rebuilt(list).dom().finite(),
        rebuilt(list).dom().len() <= list.len(),
    decreases list.len(),
{
    if list.len() > 0 {
        law_short_edit_fits(list.drop_last(), body);
    }
}

pub proof fn lemma_plain_value(s: Seq<char>)
    requires
        forall|i: int| 0 <= i < s.len() ==> ' ' <= #[trigger] s[i] <= '~',
    ensures
        is_value(encode_utf8(s)),
{
    is_ascii_chars_encode_utf8(s);
}

proof fn lemma_body_names()
    ensures
        is_stored_name("content-encoding"@),
        is_stored_name("content-length"@),
{
    reveal_strlit("content-encoding");
    reveal_strlit("content-length");
}

/// Replaces header fields by edited ones.
pub fn apply_modified_headers(headers: &mut http::HeaderMap, modified: &ModifiedTraffic)
    requires
        fits(modified@),
    ensures
        header_fields(*final(headers)) == edited_fields(header_fields(*old(headers)), modified@),
{
    match &modified.headers {
        Some(pairs) => {
            clear(headers);
            let mut i: usize = 0;
            let ghost list = crate::edit::text_pairs(pairs@);
            while i < pairs.len()
                invariant
                    i <= pairs@.len(),
                    list == crate::edit::text_pairs(pairs@),
                    rebuilt(list).dom().len() <= NAMES_MAX,
                    header_fields(*headers) == rebuilt(list.take(i as int)),
                decreases pairs@.len() - i,
            {
                proof {
                    assert(list.take(i + 1).drop_last() =~= list.take(i as int));
                    assert(list.take(i + 1).last() == list[i as int]);
                    lemma_rebuilt_grows(list, i as int);
                    vstd::set_lib::lemma_len_subset(
                        rebuilt(list.take(i as int)).dom(),
                        rebuilt(list).dom(),
                    );
                }
                match (read_name(pairs[i].0.as_str()), read_value(pairs[i].1.as_str())) {
                    (Some(name), Some(value)) => {
                        proof {
                            lemma_stored_name(list[i as int].0);
                        }
                        append(headers, name.as_str(), value.as_slice());
                    },
                    _ => {},
                }
                i = i + 1;
            }
            proof {
                assert(list.take(i as int) =~= list);
            }
        },
        None => {},
    }
    if modified.body.is_some() {
        proof {
            lemma_body_names();
        }
        remove(headers, "content-encoding");
        remove(headers, "content-length");
    }
}

/// An edit that holds nothing leaves the fields as they are.
pub proof fn law_empty_edit_keeps_fields(fields: Fields)
    ensures
        edited_fields(fields, Edit { headers: None, body: None }) == fields,
{
}

/// After an edit of the body no field tells its old encoding or its old length.
pub proof fn law_edited_body_has_no_stale_fields(fields: Fields, edit: Edit)
    requires
        edit.body is Some,
    ensures
        !edited_fields(fields, edit).contains_key("content-encoding"@),
        !edited_fields(fields, edit).contains_key("content-length"@),
{
}

/// An edit of the body alone keeps every other field.
pub proof fn law_edited_body_keeps_other_fields(fields: Fields, edit: Edit, name: Seq<char>)
    requires
        edit.headers is None,
        name != "content-encoding"@,
        name != "content-length"@,
    ensures
        values_at(edited_fields(fields, edit), name) == values_at(fields, name),
{
}

/// Edited fields replace the old ones: nothing of the old ones is left.
pub proof fn law_edited_fields_replace_all(fields: Fields, other: Fields, edit: Edit)
    requires
        edit.headers is Some,
    ensures
        edited_fields(fields, edit) == edited_fields(other, edit),
{
}

/// What goes on to the destination holds none of the withheld names, and of every other name all
/// values in their order.
pub proof fn law_passing_on_withholds_only_its_names(fields: Fields, leg: Leg, name: Seq<char>)
    ensures
        values_at(passed_on(fields, leg), name) == (if leg.withholds(name) {
            Seq::empty()
        } else {
            values_at(fields, name)
        }),
{
}

/// Passing on what was passed on changes nothing.
pub proof fn law_passing_on_is_idempotent(fields: Fields, leg: Leg)
    ensures
        passed_on(passed_on(fields, leg), leg) == passed_on(fields, leg),
{
    assert(passed_on(passed_on(fields, leg), leg) =~= passed_on(fields, leg));
}

/// A response keeps every name that it had, with one value each.
pub proof fn law_response_has_one_value_per_name(fields: Fields, name: Seq<char>)
    ensures
        last_values(fields).contains_key(name) == fields.contains_key(name),
        fields.contains_key(name) ==> values_at(last_values(fields), name) == seq![
            fields[name].last(),
        ],
{
}

/// A byte that is ASCII white space.
pub open spec fn is_blank(b: u8) -> bool {
    b == 9 || b == 10 || b == 12 || b == 13 || b == 32
}

/// A byte, with ASCII capitals taken as small letters.
pub open spec fn small_byte(b: u8) -> u8 {
    if 65 <= b <= 90 {
        (b + 32) as u8
    } else {
        b
    }
}

/// Whether an item of a list with commas between its items, `start` to `end`, is `from` to `to`
/// with nothing but white space around it.
pub open spec fn is_item(list: Seq<u8>, start: int, from: int, to: int, end: int) -> bool {
    &&& 0 <= start <= from <= to <= end <= list.len()
    &&& start == 0 || list[start - 1] == 44
    &&& end == list.len() || list[end] == 44
    &&& forall|i: int| start <= i < end ==> #[trigger] list[i] != 44
    &&& forall|i: int| start <= i < from || to <= i < end ==> is_blank(#[trigger] list[i])
}

/// Whether bytes are a word, up to the case of ASCII letters.
pub open spec fn is_word(bytes: Seq<u8>, word: Seq<char>) -> bool {
    &&& bytes.len() == word.len()
    &&& forall|i: int|
        0 <= i < bytes.len() ==> small_byte(#[trigger] bytes[i]) == text::folded(word[i])
}

/// Whether a list with commas between its items has a word among them.
pub open spec fn has_item(list: Seq<u8>, word: Seq<char>) -> bool {
    exists|start: int, from: int, to: int, end: int| #[trigger]
        is_item(list, start, from, to, end) && is_word(list.subrange(from, to), word)
}

/// Whether one of some values has a word among its items.
pub open spec fn some_has_item(values: Seq<Seq<u8>>, word: Seq<char>) -> bool {
    exists|i: int| 0 <= i < values.len() && has_item(#[trigger] values[i], word)
}

/// Whether header fields ask for an upgrade to WebSocket: the connection is to be upgraded, and
/// WebSocket is among what it is upgraded to.
pub open spec fn upgrade_requested(fields: Fields) -> bool {
    &&& some_has_item(values_at(fields, "connection"@), "Upgrade"@)
    &&& some_has_item(values_at(fields, "upgrade"@), "websocket"@)
}

/// Calls `hyper_tungstenite::is_upgrade_request` on a request with these fields: it looks for
/// `Upgrade` among the items of `Connection` and for `websocket` among those of `Upgrade`, in
/// letters of either case.
#[verifier::external_body]
pub(crate) fn is_upgrade_request(headers: &http::HeaderMap) -> (r: bool)
    ensures
        r == upgrade_requested(header_fields(*headers)),
{
    let mut request = http::Request::new(());
    *request.headers_mut() = headers.clone();
    hyper_tungstenite::is_upgrade_request(&request)
}

/// A request that lacks one of the two fields asks for no upgrade.
pub proof fn law_upgrade_needs_both_fields(fields: Fields)
    requires
        !fields.contains_key("connection"@) || !fields.contains_key("upgrade"@),
    ensures
        !upgrade_requested(fields),
{
}

/// The values of a name are those that it has, and none where it does not occur.
pub proof fn law_missing_names_have_no_values(fields: Fields, name: Seq<char>)
    ensures
        fields.contains_key(name) ==> values_at(fields, name) == fields[name],
        !fields.contains_key(name) ==> values_at(fields, name).len() == 0,
{
}

/// What concerns the connection to the client does not go on, and all else does, with all of its
/// values in their order: to a destination over HTTP eight names are withheld, to a WebSocket six.
pub proof fn law_connections_keep_their_fields(fields: Fields, name: Seq<char>)
    ensures
        values_at(passed_on(fields, Leg::Http), name) == (if name == "host"@ || name
            == "connection"@ || name == "proxy-authorization"@ || name == "transfer-encoding"@
            || name == "upgrade"@ || name == "te"@ || name == "keep-alive"@ || name
            == "proxy-connection"@ {
            Seq::empty()
        } else {
            values_at(fields, name)
        }),
        values_at(passed_on(fields, Leg::Websocket), name) == (if name == "host"@ || name
            == "connection"@ || name == "proxy-authorization"@ || name == "sec-websocket-key"@
            || name == "sec-websocket-version"@ || name == "sec-websocket-extensions"@ {
            Seq::empty()
        } else {
            values_at(fields, name)
        }),
{
}

/// One edited field that is well formed gives its name, in small letters, its value and nothing
/// else; one that is not gives nothing.
pub proof fn law_one_edited_field_gives_one(
    name: Seq<char>,
    value: Seq<char>,
    other: Seq<char>,
)
    ensures
        rebuilt(Seq::empty()) == no_fields(),
        values_at(rebuilt(seq![(name, value)]), other) == (if is_name(name) && is_value(
            encode_utf8(value),
        ) && other == text::small(name) {
            seq![encode_utf8(value)]
        } else {
            Seq::empty()
        }),
{
    let list = seq![(name, value)];
    assert(list.drop_last() =~= Seq::empty());
    assert(rebuilt(list.drop_last()) == no_fields());
    assert(Seq::<Seq<u8>>::empty().push(encode_utf8(value)) =~= seq![encode_utf8(value)]);
}

/// Edited fields come one behind the other: what a list gives a name is what its two parts give it,
/// in their order.
pub proof fn law_edited_fields_keep_their_order(
    first: Seq<(Seq<char>, Seq<char>)>,
    second: Seq<(Seq<char>, Seq<char>)>,
    name: Seq<char>,
)
    ensures
        values_at(rebuilt(first + second), name) == values_at(rebuilt(first), name) + values_at(
            rebuilt(second),
            name,
        ),
    decreases second.len(),
{
    let all = first + second;
    if second.len() == 0 {
        assert(all =~= first);
        assert(values_at(rebuilt(second), name) =~= Seq::empty());
        assert(values_at(rebuilt(first), name) + Seq::<Seq<u8>>::empty() =~= values_at(
            rebuilt(first),
            name,
        ));
    } else {
        let rest = second.drop_last();
        law_edited_fields_keep_their_order(first, rest, name);
        assert(all.drop_last() =~= first + rest);
        assert(all.last() == second.last());
        let field = second.last();
        assert(values_at(rebuilt(first + rest), name).push(encode_utf8(field.1)) =~= values_at(
            rebuilt(first),
            name,
        ) + values_at(rebuilt(rest), name).push(encode_utf8(field.1)));
    }
}

/// An edit leaves every name the values that it gives it: those of the edited fields where it has
/// any, and else those that were there. Only the length and the encoding of an old body do not stay
/// beside a new one.
pub proof fn law_edits_give_every_name_its_values(fields: Fields, edit: Edit, name: Seq<char>)
    ensures
        values_at(edited_fields(fields, edit), name) == (if edit.body is Some && (name
            == "content-encoding"@ || name == "content-length"@) {
            Seq::empty()
        } else {
            match edit.headers {
                Some(list) => values_at(rebuilt(list), name),
                None => values_at(fields, name),
            }
        }),
{
}

/// The text of a value is its bytes, one character for each, where all of them can be printed; of
/// several values the media type is the first one's and the encoding the last one's.
pub proof fn law_values_are_read_as_text(
    value: Seq<u8>,
    front: Seq<Seq<u8>>,
    i: int,
)
    requires
        forall|j: int| 0 <= j < value.len() ==> 32 <= #[trigger] value[j] < 127 || value[j] == 9,
    ensures
        value_text(value) is Some,
        value_text(value)->0.len() == value.len(),
        0 <= i < value.len() ==> value_text(value)->0[i] as int == value[i],
        first_text(seq![value] + front) == value_text(value)->0,
        last_text(front.push(value)) == value_text(value)->0,
        first_text(Seq::empty()).len() == 0,
        last_text(Seq::empty()).len() == 0,
{
    assert((seq![value] + front)[0] == value);
    assert(front.push(value).last() == value);
}

/// A value with a byte that cannot be printed has no text.
pub proof fn law_unprintable_values_have_no_text(value: Seq<u8>, at: int)
    requires
        0 <= at < value.len(),
        value[at] >= 127 || (value[at] < 32 && value[at] != 9),
    ensures
        value_text(value) is None,
        first_text(seq![value]).len() == 0,
        last_text(seq![value]).len() == 0,
{
    assert(!is_visible(value)) by {
        assert(!(32 <= value[at] < 127 || value[at] == 9));
    }
}

proof fn lemma_whole_item(word: Seq<char>, bytes: Seq<u8>)
    requires
        bytes.len() == word.len(),
        forall|i: int|
            0 <= i < word.len() ==> (#[trigger] bytes[i] == word[i] as int || 'A' <= word[i] <= 'Z'
                && bytes[i] == word[i] as int + 32 || 'a' <= word[i] <= 'z' && bytes[i] == word[i]
                as int - 32),
        forall|i: int|
            0 <= i < word.len() ==> 'A' <= #[trigger] word[i] <= 'Z' || 'a' <= word[i] <= 'z',
    ensures
        has_item(bytes, word),
{
    assert forall|i: int| 0 <= i < bytes.len() implies small_byte(#[trigger] bytes[i])
        == text::folded(word[i]) by {
        assert('A' <= word[i] <= 'Z' || 'a' <= word[i] <= 'z');
    }
    let n = bytes.len() as int;
    assert forall|i: int| 0 <= i < n implies #[trigger] bytes[i] != 44 by {
        assert('A' <= word[i] <= 'Z' || 'a' <= word[i] <= 'z');
    }
    assert(bytes.subrange(0, n) =~= bytes);
    assert(is_item(bytes, 0, 0, n, n));
}

/// A request whose connection is to be upgraded, and that names WebSocket for it, asks for an
/// upgrade, in letters of either case and whatever its other fields are.
pub proof fn law_plain_upgrades_are_taken(fields: Fields, connection: Seq<u8>, upgrade: Seq<u8>)
    requires
        values_at(fields, "connection"@).contains(connection),
        values_at(fields, "upgrade"@).contains(upgrade),
        connection.len() == 7,
        forall|i: int|
            0 <= i < 7 ==> (#[trigger] connection[i] == "upgrade"@[i] as int || connection[i]
                == "upgrade"@[i] as int - 32),
        upgrade.len() == 9,
        forall|i: int|
            0 <= i < 9 ==> (#[trigger] upgrade[i] == "websocket"@[i] as int || upgrade[i]
                == "websocket"@[i] as int - 32),
    ensures
        upgrade_requested(fields),
{
    reveal_strlit("upgrade");
    reveal_strlit("Upgrade");
    reveal_strlit("websocket");
    assert forall|i: int| 0 <= i < 7 implies (#[trigger] connection[i] == "Upgrade"@[i] as int
        || 'A' <= "Upgrade"@[i] <= 'Z' && connection[i] == "Upgrade"@[i] as int + 32 || 'a'
        <= "Upgrade"@[i] <= 'z' && connection[i] == "Upgrade"@[i] as int - 32) by {
        assert(connection[i] == "upgrade"@[i] as int || connection[i] == "upgrade"@[i] as int - 32);
    }
    lemma_whole_item("Upgrade"@, connection);
    lemma_whole_item("websocket"@, upgrade);
    let i = values_at(fields, "connection"@).index_of(connection);
    let j = values_at(fields, "upgrade"@).index_of(upgrade);
    assert(has_item(values_at(fields, "connection"@)[i], "Upgrade"@));
    assert(has_item(values_at(fields, "upgrade"@)[j], "websocket"@));
}

/// A list gives a name the values that it has beside it, in order: what two lists give, one behind
/// the other, is what each gives.
pub proof fn law_listed_values_come_in_order(
    first: Seq<(Seq<char>, Seq<u8>)>,
    second: Seq<(Seq<char>, Seq<u8>)>,
    name: Seq<char>,
    other: Seq<char>,
    value: Seq<u8>,
)
    ensures
        listed_values(first + second, name) == listed_values(first, name) + listed_values(
            second,
            name,
        ),
        listed_values(seq![(name, value)], name) == seq![value],
        other != name ==> listed_values(seq![(name, value)], other).len() == 0,
    decreases second.len(),
{
    reveal_with_fuel(listed_values, 2);
    let one = seq![(name, value)];
    assert(one.drop_last() =~= Seq::empty());
    assert(listed_values(one, name) =~= seq![value]);
    let all = first + second;
    if second.len() == 0 {
        assert(all =~= first);
        assert(listed_values(first, name) + listed_values(second, name) =~= listed_values(
            first,
            name,
        ));
    } else {
        law_listed_values_come_in_order(first, second.drop_last(), name, other, value);
        assert(all.drop_last() =~= first + second.drop_last());
        assert(all.last() == second.last());
        assert(listed_values(all, name) =~= listed_values(first, name) + listed_values(
            second,
            name,
        ));
    }
}

/// The contents of a list of fields are the names and the values of each, in order.
pub proof fn law_lists_hold_their_fields(list: Seq<Header>, i: int)
    requires
        0 <= i < list.len(),
    ensures
        listed(list).len() == list.len(),
        listed(list)[i].0 == list[i].name@,
        listed(list)[i].1 == list[i].value@,
{
}

/// The media type that is declared is the first value of the field for it, and nothing where there
/// is no such field; other fields have no part in it.
pub proof fn law_media_types_are_declared(fields: Fields, other: Fields, i: int)
    requires
        values_at(fields, "content-type"@) == values_at(other, "content-type"@),
    ensures
        declared_media(fields) == declared_media(other),
        !fields.contains_key("content-type"@) ==> declared_media(fields).len() == 0,
        values_at(fields, "content-type"@).len() > 0 && is_visible(
            values_at(fields, "content-type"@)[0],
        ) ==> {
            let value = values_at(fields, "content-type"@)[0];
            &&& declared_media(fields).len() == value.len()
            &&& 0 <= i < value.len() ==> declared_media(fields)[i] as int == value[i]
        },
{
}

} // verus!
