//! Responses that the proxy gives.
use vstd::prelude::*;
use vstd::string::*;
use vstd::utf8::*;

use crate::headers;
use crate::headers::Fields;
use crate::message;
use crate::message::{Entry, WebsocketMessage};
use crate::state;
use crate::text;
use crate::traffic::{Head, TrafficHead};

verus! {

broadcast use vstd::string::group_string_axioms;

/// The body of a response. `Heads` and `Messages` are feeds: what is there already, then all that
/// is announced later, `Messages` for one WebSocket. `Destination` is the body that the destination
/// sends, passed through.
#[derive(Debug)]
pub enum ResBody {
    Empty,
    Text(String),
    Bytes(Vec<u8>),
    Heads(Vec<TrafficHead>),
    Messages(usize, Vec<WebsocketMessage>),
    Destination,
}

/// A response to a client.
#[derive(Debug)]
pub struct Response {
    pub status: u16,
    pub headers: http::HeaderMap,
    pub body: ResBody,
}

/// What the body of a response holds.
pub enum Content {
    Empty,
    Text(Seq<char>),
    Bytes(Seq<u8>),
    Heads(Seq<Head>),
    Messages(usize, Seq<Entry>),
    Destination,
}

/// What a response holds.
#[verifier::ext_equal]
pub struct Reply {
    pub status: u16,
    pub fields: Fields,
    pub content: Content,
}

impl View for ResBody {
    type V = Content;

    open spec fn view(&self) -> Content {
        match self {
            ResBody::Empty => Content::Empty,
            ResBody::Text(s) => Content::Text(s@),
            ResBody::Bytes(b) => Content::Bytes(b@),
            ResBody::Heads(heads) => Content::Heads(state::head_views(heads@)),
            ResBody::Messages(id, list) => Content::Messages(*id, message::entries(list@)),
            ResBody::Destination => Content::Destination,
        }
    }
}

impl View for Response {
    type V = Reply;

    open spec fn view(&self) -> Reply {
        Reply {
            status: self.status,
            fields: headers::header_fields(self.headers),
            content: self.body@,
        }
    }
}

pub const OK: u16 = 200;

pub const BAD_REQUEST: u16 = 400;

pub const NOT_FOUND: u16 = 404;

pub const METHOD_NOT_ALLOWED: u16 = 405;

pub const INTERNAL_SERVER_ERROR: u16 = 500;

pub const GATEWAY_TIMEOUT: u16 = 504;

impl Reply {
    /// A response with a status and nothing else.
    pub open spec fn bare(status: u16) -> Reply {
        Reply { status, fields: headers::no_fields(), content: Content::Empty }
    }

    /// The response with another status.
    pub open spec fn status(self, status: u16) -> Reply {
        Reply { status, ..self }
    }

    /// The response with a field set to one value.
    pub open spec fn field(self, name: Seq<char>, value: Seq<char>) -> Reply {
        Reply { fields: self.fields.insert(name, seq![encode_utf8(value)]), ..self }
    }

    /// The response with a text for its body, and the text's length in bytes in its fields.
    pub open spec fn text(self, body: Seq<char>) -> Reply {
        Reply {
            content: Content::Text(body),
            ..self.field("content-length"@, text::decimal(encode_utf8(body).len()))
        }
    }

    /// The response with another body.
    pub open spec fn content(self, content: Content) -> Reply {
        Reply { content, ..self }
    }

    /// The response with the fields that open it to pages from elsewhere.
    pub open spec fn cors(self) -> Reply {
        self.field("access-control-allow-origin"@, "*"@).field(
            "access-control-allow-methods"@,
            "GET,POST,PUT,PATCH,DELETE"@,
        ).field("access-control-allow-headers"@, "Content-Type,Authorization"@)
    }

    /// The response with its media type, not to be cached.
    pub open spec fn fresh(self, media: Seq<char>) -> Reply {
        self.field("content-type"@, media).field("cache-control"@, "no-cache"@)
    }
}

/// The names of fields that the proxy sets are header names.
pub proof fn lemma_own_names()
    ensures
        headers::is_stored_name("content-type"@),
        headers::is_stored_name("content-length"@),
        headers::is_stored_name("content-disposition"@),
        headers::is_stored_name("cache-control"@),
        headers::is_stored_name("access-control-allow-origin"@),
        headers::is_stored_name("access-control-allow-methods"@),
        headers::is_stored_name("access-control-allow-headers"@),
{
    reveal_strlit("content-type");
    reveal_strlit("content-length");
    reveal_strlit("content-disposition");
    reveal_strlit("cache-control");
    reveal_strlit("access-control-allow-origin");
    reveal_strlit("access-control-allow-methods");
    reveal_strlit("access-control-allow-headers");
}

/// Whether a response has no more fields than the proxy itself sets.
pub open spec fn is_own(reply: Reply) -> bool {
    reply.fields.dom().finite() && reply.fields.dom().len() <= 100
}

impl Response {
    /// A response with a status and nothing else.
    pub fn bare(status: u16) -> (r: Self)
        ensures
            r@ == Reply::bare(status),
            is_own(r@),
    {
        Response { status, headers: headers::new_map(), body: ResBody::Empty }
    }

    /// Sets a field to one value.
    pub fn set_field(&mut self, name: &str, value: &str)
        requires
            headers::is_stored_name(name@),
            headers::is_value(encode_utf8(value@)),
            old(self)@.fields.dom().len() <= headers::NAMES_MAX,
        ensures
            final(self)@ == old(self)@.field(name@, value@),
    {
        headers::insert(&mut self.headers, name, value.as_bytes());
    }

    /// Sets the body to a text, and the field with its length.
    pub fn set_res_body(&mut self, body: String)
        requires
            old(self)@.fields.dom().len() <= headers::NAMES_MAX,
        ensures
            final(self)@ == old(self)@.text(body@),
    {
        let len: usize = body.as_str().as_bytes().len();
        let length: String = text::decimal_text(len);
        proof {
            lemma_own_names();
            text::lemma_decimal(len as nat);
            headers::lemma_plain_value(length@);
        }
        self.set_field("content-length", length.as_str());
        self.body = ResBody::Text(body);
    }

    /// Sets the fields that open the response to pages from elsewhere.
    pub fn set_cors_header(&mut self)
        requires
            is_own(old(self)@),
        ensures
            final(self)@ == old(self)@.cors(),
    {
        proof {
            lemma_own_names();
            reveal_strlit("*");
            reveal_strlit("GET,POST,PUT,PATCH,DELETE");
            reveal_strlit("Content-Type,Authorization");
            headers::lemma_plain_value("*"@);
            headers::lemma_plain_value("GET,POST,PUT,PATCH,DELETE"@);
            headers::lemma_plain_value("Content-Type,Authorization"@);
        }
        self.set_field("access-control-allow-origin", "*");
        self.set_field("access-control-allow-methods", "GET,POST,PUT,PATCH,DELETE");
        self.set_field("access-control-allow-headers", "Content-Type,Authorization");
    }

    /// Sets the media type, and that the response is not to be cached.
    pub fn set_fresh(&mut self, media: &str)
        requires
            old(self)@.fields.dom().finite(),
            old(self)@.fields.dom().len() < headers::NAMES_MAX,
            headers::is_value(encode_utf8(media@)),
        ensures
            final(self)@ == old(self)@.fresh(media@),
    {
        proof {
            lemma_own_names();
            reveal_strlit("no-cache");
            headers::lemma_plain_value("no-cache"@);
        }
        self.set_field("content-type", media);
        self.set_field("cache-control", "no-cache");
    }

    /// A response with a status and a text.
    pub fn with_text(status: u16, body: &str) -> (r: Self)
        ensures
            r@ == Reply::bare(status).text(body@),
    {
        let mut r: Response = Response::bare(status);
        r.set_res_body(body.to_owned());
        r
    }
}

/// The line of a feed that tells of one item: the item's JSON and the end of the line, or nothing
/// where the item has no JSON.
pub fn ndjson_line(data: Option<String>) -> (r: String)
    ensures
        r@ == (match data {
            Some(s) => s@ + "\n"@,
            None => Seq::empty(),
        }),
        r@ == feed_line(text::optional_text(data)),
{
    match data {
        Some(s) => text::chain(s.as_str(), "\n"),
        None => String::new(),
    }
}

/// What of an announcement goes into the feed of a WebSocket.
pub open spec fn fed(id: usize, news: (usize, WebsocketMessage)) -> Option<WebsocketMessage> {
    if news.0 == id {
        Some(news.1)
    } else {
        None
    }
}

/// The line of a feed that tells of one item.
pub open spec fn feed_line(data: Option<Seq<char>>) -> Seq<char> {
    match data {
        Some(s) => s + "\n"@,
        None => Seq::empty(),
    }
}

/// What of an announcement goes into the feed of a WebSocket: announcements of other WebSockets do
/// not.
pub fn feed_item(id: usize, news: (usize, WebsocketMessage)) -> (r: Option<WebsocketMessage>)
    ensures
        r == fed(id, news),
        r == (if news.0 == id {
            Some(news.1)
        } else {
            None
        }),
{
    if news.0 != id {
        None
    } else {
        Some(news.1)
    }
}

/// The length that a response declares is the length of its text in bytes.
pub proof fn law_declared_length_is_the_length(reply: Reply, body: Seq<char>)
    ensures
        headers::values_at(reply.text(body).fields, "content-length"@).len() == 1,
        headers::values_at(reply.text(body).fields, "content-length"@)[0] == encode_utf8(
            text::decimal(encode_utf8(body).len()),
        ),
        text::decimal_value(text::decimal(encode_utf8(body).len())) == Some(
            encode_utf8(body).len(),
        ),
{
    let n = encode_utf8(body).len();
    text::lemma_decimal(n);
    assert(text::decimal(n)[0] != '+');
}

/// The statuses have the numbers that HTTP gives them.
pub proof fn law_statuses_have_their_numbers()
    ensures
        OK == 200,
        BAD_REQUEST == 400,
        NOT_FOUND == 404,
        METHOD_NOT_ALLOWED == 405,
        INTERNAL_SERVER_ERROR == 500,
        GATEWAY_TIMEOUT == 504,
{
}

/// A bare response has its status, no field and no body.
pub proof fn law_bare_responses_hold_nothing(status: u16, name: Seq<char>)
    ensures
        Reply::bare(status).status == status,
        !Reply::bare(status).fields.contains_key(name),
        Reply::bare(status).content == Content::Empty,
{
}

/// A field that is set has this value alone; the other fields, the status and the body are as they
/// were.
pub proof fn law_setting_a_field_sets_one(
    reply: Reply,
    name: Seq<char>,
    value: Seq<char>,
    other: Seq<char>,
)
    ensures
        headers::values_at(reply.field(name, value).fields, name) == seq![encode_utf8(value)],
        other != name ==> headers::values_at(reply.field(name, value).fields, other)
            == headers::values_at(reply.fields, other),
        reply.field(name, value).status == reply.status,
        reply.field(name, value).content == reply.content,
{
}

/// A text for a body changes the body and the declared length, and nothing else; another status and
/// another body change these alone.
pub proof fn law_bodies_are_set(
    reply: Reply,
    body: Seq<char>,
    status: u16,
    content: Content,
    other: Seq<char>,
)
    ensures
        reply.text(body).content == Content::Text(body),
        reply.text(body).status == reply.status,
        other != "content-length"@ ==> headers::values_at(reply.text(body).fields, other)
            == headers::values_at(reply.fields, other),
        reply.status(status).status == status,
        reply.status(status).fields == reply.fields,
        reply.status(status).content == reply.content,
        reply.content(content).content == content,
        reply.content(content).status == reply.status,
        reply.content(content).fields == reply.fields,
{
}

/// A response that is opened to pages from elsewhere tells who may read it, by which methods and
/// with which fields; all else is as it was.
pub proof fn law_opened_responses_say_so(reply: Reply, other: Seq<char>)
    ensures
        headers::values_at(reply.cors().fields, "access-control-allow-origin"@) == seq![
            encode_utf8("*"@),
        ],
        headers::values_at(reply.cors().fields, "access-control-allow-methods"@) == seq![
            encode_utf8("GET,POST,PUT,PATCH,DELETE"@),
        ],
        headers::values_at(reply.cors().fields, "access-control-allow-headers"@) == seq![
            encode_utf8("Content-Type,Authorization"@),
        ],
        other != "access-control-allow-origin"@ && other != "access-control-allow-methods"@ && other
            != "access-control-allow-headers"@ ==> headers::values_at(reply.cors().fields, other)
            == headers::values_at(reply.fields, other),
        reply.cors().status == reply.status,
        reply.cors().content == reply.content,
{
    reveal_strlit("access-control-allow-origin");
    reveal_strlit("access-control-allow-methods");
    reveal_strlit("access-control-allow-headers");
    assert("access-control-allow-origin"@.len() == 27);
    assert("access-control-allow-methods"@[21] == 'm');
    assert("access-control-allow-headers"@[21] == 'h');
}

/// A response that is not to be cached says so beside its media type; all else is as it was.
pub proof fn law_fresh_responses_say_so(reply: Reply, media: Seq<char>, other: Seq<char>)
    ensures
        headers::values_at(reply.fresh(media).fields, "content-type"@) == seq![encode_utf8(media)],
        headers::values_at(reply.fresh(media).fields, "cache-control"@) == seq![
            encode_utf8("no-cache"@),
        ],
        other != "content-type"@ && other != "cache-control"@ ==> headers::values_at(
            reply.fresh(media).fields,
            other,
        ) == headers::values_at(reply.fields, other),
        reply.fresh(media).status == reply.status,
        reply.fresh(media).content == reply.content,
{
    reveal_strlit("content-type");
    reveal_strlit("cache-control");
    assert("content-type"@.len() == 12);
    assert("cache-control"@.len() == 13);
}

/// What a response holds is its status, its fields and its body.
pub proof fn law_replies_hold_the_response(res: Response)
    ensures
        res@.status == res.status,
        res@.fields == headers::header_fields(res.headers),
        res.body is Empty <==> res@.content is Empty,
        res.body is Destination <==> res@.content is Destination,
        res.body matches ResBody::Text(s) ==> res@.content == Content::Text(s@),
        res.body matches ResBody::Bytes(b) ==> res@.content == Content::Bytes(b@),
        res.body matches ResBody::Messages(id, list) ==> {
            &&& res@.content matches Content::Messages(n, entries) && n == id && entries.len()
                == list@.len() && forall|i: int|
                0 <= i < list@.len() ==> entries[i] == (#[trigger] list@[i])@
        },
        res.body matches ResBody::Heads(heads) ==> {
            &&& res@.content matches Content::Heads(list) && list.len() == heads@.len() && forall|
                i: int,
            |
                0 <= i < heads@.len() ==> list[i] == (#[trigger] heads@[i])@
        },
{
}

/// The feed of a WebSocket has every announcement of it, as it was made, and none of another.
pub proof fn law_feeds_tell_of_one_socket(id: usize, other: usize, message: WebsocketMessage)
    ensures
        fed(id, (id, message)) == Some(message),
        other != id ==> fed(id, (other, message)) is None,
{
}

/// Each item of a feed is on a line of its own: its JSON, which holds no end of a line, and one end
/// of a line behind it. What has no JSON leaves nothing.
pub proof fn law_feeds_have_a_line_for_each(data: Seq<char>)
    ensures
        feed_line(Some(data)).len() == data.len() + 1,
        feed_line(Some(data)).last() == '\n',
        feed_line(Some(data)).drop_last() == data,
        feed_line(None).len() == 0,
{
    reveal_strlit("\n");
    assert(feed_line(Some(data)).drop_last() =~= data);
}

} // verus!
