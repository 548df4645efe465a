//! What is recorded of an exchange between a client and a destination.
use vstd::prelude::*;
use vstd::string::*;

use crate::headers;
use crate::headers::Header;
use crate::text;

verus! {

broadcast use vstd::string::group_string_axioms;

/// A version of HTTP.
#[derive(Clone, Copy, Debug, PartialEq, Eq, Structural)]
pub enum HttpVersion {
    Http09,
    Http10,
    Http11,
    Http2,
    Http3,
}

/// One exchange. `gid` tells it from the others while it is under way; `valid` tells whether the
/// filters let it be recorded.
#[derive(Debug)]
pub struct Traffic {
    pub gid: usize,
    pub uri: String,
    pub method: String,
    pub valid: bool,
    pub req_headers: Option<Vec<Header>>,
    pub req_body_file: Option<String>,
    pub status: Option<u16>,
    pub http_version: Option<HttpVersion>,
    pub res_headers: Option<Vec<Header>>,
    pub res_body_file: Option<String>,
    pub res_body_size: Option<u64>,
    pub websocket_id: Option<usize>,
    pub start_time: Option<i128>,
    pub errors: Vec<String>,
}

/// A list of header fields.
pub type FieldList = Seq<(Seq<char>, Seq<u8>)>;

/// What an exchange holds.
#[verifier::ext_equal]
pub struct Record {
    pub gid: usize,
    pub uri: Seq<char>,
    pub method: Seq<char>,
    pub valid: bool,
    pub req_headers: Option<FieldList>,
    pub req_body_file: Option<Seq<char>>,
    pub status: Option<u16>,
    pub http_version: Option<HttpVersion>,
    pub res_headers: Option<FieldList>,
    pub res_body_file: Option<Seq<char>>,
    pub res_body_size: Option<u64>,
    pub websocket_id: Option<usize>,
    pub start_time: Option<i128>,
    pub errors: Seq<Seq<char>>,
}

/// The content of an optional list of header fields.
pub open spec fn list_view(list: Option<Vec<Header>>) -> Option<FieldList> {
    match list {
        Some(list) => Some(headers::listed(list@)),
        None => None,
    }
}

impl View for Traffic {
    type V = Record;

    open spec fn view(&self) -> Record {
        Record {
            gid: self.gid,
            uri: self.uri@,
            method: self.method@,
            valid: self.valid,
            req_headers: list_view(self.req_headers),
            req_body_file: text::optional_text(self.req_body_file),
            status: self.status,
            http_version: self.http_version,
            res_headers: list_view(self.res_headers),
            res_body_file: text::optional_text(self.res_body_file),
            res_body_size: self.res_body_size,
            websocket_id: self.websocket_id,
            start_time: self.start_time,
            errors: text::texts(self.errors@),
        }
    }
}

/// The summary of an exchange under its number in the list.
#[derive(Debug)]
pub struct TrafficHead {
    pub id: usize,
    pub method: String,
    pub uri: String,
    pub status: Option<u16>,
    pub size: Option<u64>,
    pub websocket_id: Option<usize>,
    pub pending: bool,
}

/// What a summary holds.
#[verifier::ext_equal]
pub struct Head {
    pub id: usize,
    pub method: Seq<char>,
    pub uri: Seq<char>,
    pub status: Option<u16>,
    pub size: Option<u64>,
    pub websocket_id: Option<usize>,
    pub pending: bool,
}

impl View for TrafficHead {
    type V = Head;

    open spec fn view(&self) -> Head {
        Head {
            id: self.id,
            method: self.method@,
            uri: self.uri@,
            status: self.status,
            size: self.size,
            websocket_id: self.websocket_id,
            pending: self.pending,
        }
    }
}

impl Record {
    /// The record with which an exchange begins.
    pub open spec fn begun(gid: usize, uri: Seq<char>, method: Seq<char>) -> Record {
        Record {
            gid,
            uri,
            method,
            valid: true,
            req_headers: None,
            req_body_file: None,
            status: None,
            http_version: None,
            res_headers: None,
            res_body_file: None,
            res_body_size: None,
            websocket_id: None,
            start_time: None,
            errors: Seq::empty(),
        }
    }

    /// The summary of the exchange, as one that is not held back.
    pub open spec fn head(self, id: usize) -> Head {
        Head {
            id,
            method: self.method,
            uri: self.uri,
            status: self.status,
            size: self.res_body_size,
            websocket_id: self.websocket_id,
            pending: false,
        }
    }

    /// The record after one more filter has been asked.
    pub open spec fn checked(self, is_match: bool) -> Record {
        Record { valid: self.valid && is_match, ..self }
    }

    /// The record after one more error.
    pub open spec fn failed(self, error: Seq<char>) -> Record {
        Record { errors: self.errors.push(error), ..self }
    }
}

fn copy_string(s: &Option<String>) -> (r: Option<String>)
    ensures
        text::optional_text(r) == text::optional_text(*s),
{
    match s {
        Some(s) => Some(s.clone()),
        None => None,
    }
}

fn copy_list(list: &Option<Vec<Header>>) -> (r: Option<Vec<Header>>)
    ensures
        list_view(r) == list_view(*list),
{
    match list {
        Some(list) => {
            let mut r: Vec<Header> = Vec::new();
            let mut i: usize = 0;
            while i < list.len()
                invariant
                    i <= list@.len(),
                    r@.len() == i,
                    forall|j: int| 0 <= j < i ==> (#[trigger] r@[j])@ == list@[j]@,
                decreases list@.len() - i,
            {
                r.push(list[i].clone());
                i = i + 1;
            }
            proof {
                assert(headers::listed(r@) =~= headers::listed(list@));
            }
            Some(r)
        },
        None => None,
    }
}

/// A copy of a list of strings.
pub(crate) fn copy_strings(list: &Vec<String>) -> (r: Vec<String>)
    ensures
        text::texts(r@) == text::texts(list@),
{
    let mut r: Vec<String> = Vec::new();
    let mut i: usize = 0;
    while i < list.len()
        invariant
            i <= list@.len(),
            r@.len() == i,
            forall|j: int| 0 <= j < i ==> (#[trigger] r@[j])@ == list@[j]@,
        decreases list@.len() - i,
    {
        r.push(list[i].clone());
        i = i + 1;
    }
    proof {
        assert(text::texts(r@) =~= text::texts(list@));
    }
    r
}

impl Clone for Traffic {
    fn clone(&self) -> (r: Self)
        ensures
            r@ == self@,
    {
        Traffic {
            gid: self.gid,
            uri: self.uri.clone(),
            method: self.method.clone(),
            valid: self.valid,
            req_headers: copy_list(&self.req_headers),
            req_body_file: copy_string(&self.req_body_file),
            status: self.status,
            http_version: self.http_version,
            res_headers: copy_list(&self.res_headers),
            res_body_file: copy_string(&self.res_body_file),
            res_body_size: self.res_body_size,
            websocket_id: self.websocket_id,
            start_time: self.start_time,
            errors: copy_strings(&self.errors),
        }
    }
}

impl Clone for TrafficHead {
    fn clone(&self) -> (r: Self)
        ensures
            r == *self,
    {
        TrafficHead {
            id: self.id,
            method: self.method.clone(),
            uri: self.uri.clone(),
            status: self.status,
            size: self.size,
            websocket_id: self.websocket_id,
            pending: self.pending,
        }
    }
}

impl Traffic {
    /// An exchange of which nothing has happened yet.
    pub fn new(gid: usize, uri: &str, method: &str) -> (r: Self)
        ensures
            r@ == Record::begun(gid, uri@, method@),
    {
        let r: Traffic = Traffic {
            gid,
            uri: uri.to_owned(),
            method: method.to_owned(),
            valid: true,
            req_headers: None,
            req_body_file: None,
            status: None,
            http_version: None,
            res_headers: None,
            res_body_file: None,
            res_body_size: None,
            websocket_id: None,
            start_time: None,
            errors: Vec::new(),
        };
        proof {
            assert(r@.errors =~= Seq::empty());
        }
        r
    }

    /// The summary of the exchange under a number.
    pub fn head(&self, id: usize) -> (r: TrafficHead)
        ensures
            r@ == self@.head(id),
    {
        TrafficHead {
            id,
            method: self.method.clone(),
            uri: self.uri.clone(),
            status: self.status,
            size: self.res_body_size,
            websocket_id: self.websocket_id,
            pending: false,
        }
    }

    /// Takes in what a filter says. An exchange stays valid only as long as every filter agrees.
    pub fn check_match(&mut self, is_match: bool)
        ensures
            final(self)@ == old(self)@.checked(is_match),
    {
        self.valid = self.valid && is_match;
    }

    /// Records an error, behind those recorded before.
    pub fn add_error(&mut self, error: String)
        ensures
            final(self)@ == old(self)@.failed(error@),
    {
        let ghost before = self.errors@;
        self.errors.push(error);
        proof {
            assert(text::texts(self.errors@) =~= text::texts(before).push(error@));
        }
    }

    /// Records the header fields of the request.
    pub fn set_req_headers(&mut self, m: &http::HeaderMap)
        ensures
            final(self)@ == (Record {
                req_headers: final(self)@.req_headers,
                ..old(self)@
            }),
            final(self)@.req_headers matches Some(list) && headers::lists(
                headers::header_fields(*m),
                list,
            ),
    {
        self.req_headers = Some(headers::fields(m));
    }

    /// Records the header fields of the response.
    pub fn set_res_headers(&mut self, m: &http::HeaderMap)
        ensures
            final(self)@ == (Record {
                res_headers: final(self)@.res_headers,
                ..old(self)@
            }),
            final(self)@.res_headers matches Some(list) && headers::lists(
                headers::header_fields(*m),
                list,
            ),
    {
        self.res_headers = Some(headers::fields(m));
    }

    /// Records the status of the response.
    pub fn set_res_status(&mut self, status: u16)
        ensures
            final(self)@ == (Record { status: Some(status), ..old(self)@ }),
    {
        self.status = Some(status);
    }

    /// Records the version of HTTP that the response came in.
    pub fn set_http_version(&mut self, version: HttpVersion)
        ensures
            final(self)@ == (Record { http_version: Some(version), ..old(self)@ }),
    {
        self.http_version = Some(version);
    }

    /// Records the file that holds the body of the request.
    pub fn set_req_body_file(&mut self, path: &str)
        ensures
            final(self)@ == (Record { req_body_file: Some(path@), ..old(self)@ }),
    {
        self.req_body_file = Some(path.to_owned());
    }

    /// Records the file that holds the body of the response.
    pub fn set_res_body_file(&mut self, path: &str)
        ensures
            final(self)@ == (Record { res_body_file: Some(path@), ..old(self)@ }),
    {
        self.res_body_file = Some(path.to_owned());
    }

    /// Records how many bytes the body of the response had on the wire.
    pub fn done_res_body(&mut self, raw_size: u64)
        ensures
            final(self)@ == (Record { res_body_size: Some(raw_size), ..old(self)@ }),
    {
        self.res_body_size = Some(raw_size);
    }

    /// Records the WebSocket that the exchange was upgraded to.
    pub fn set_websocket_id(&mut self, id: usize)
        ensures
            final(self)@ == (Record { websocket_id: Some(id), ..old(self)@ }),
    {
        self.websocket_id = Some(id);
    }

    /// Records when the request went out.
    pub fn set_start_time(&mut self, now: i128)
        ensures
            final(self)@ == (Record { start_time: Some(now), ..old(self)@ }),
    {
        self.start_time = Some(now);
    }
}

/// The name of the file for the body of a request: the exchange's `gid` with five digits or more,
/// then the extension of its media type.
pub open spec fn req_file_name(gid: usize, ext: Seq<char>) -> Seq<char> {
    text::padded(gid as nat, 5) + "-req"@ + ext
}

/// The name of the file for the body of a response: as for a request, with the extension of its
/// encoding at the end.
pub open spec fn res_file_name(gid: usize, ext: Seq<char>, encoding_ext: Seq<char>) -> Seq<char> {
    text::padded(gid as nat, 5) + "-res"@ + ext + encoding_ext
}

/// The name of the file for the body of a request.
pub fn req_body_file_name(gid: usize, ext: &str) -> (r: String)
    ensures
        r@ == req_file_name(gid, ext@),
{
    let mut r: String = text::padded_text(gid, 5);
    r.append("-req");
    r.append(ext);
    r
}

/// The name of the file for the body of a response.
pub fn res_body_file_name(gid: usize, ext: &str, encoding_ext: &str) -> (r: String)
    ensures
        r@ == res_file_name(gid, ext@, encoding_ext@),
{
    let mut r: String = text::padded_text(gid, 5);
    r.append("-res");
    r.append(ext);
    r.append(encoding_ext);
    r
}

/// An exchange begins with what the client asks for and nothing else: no filter has turned it down
/// yet, and nothing has come back.
pub proof fn law_exchanges_begin_empty(gid: usize, uri: Seq<char>, method: Seq<char>)
    ensures
        ({
            let record = Record::begun(gid, uri, method);
            &&& record.gid == gid
            &&& record.uri == uri
            &&& record.method == method
            &&& record.valid
            &&& record.errors.len() == 0
            &&& record.req_headers is None && record.req_body_file is None
            &&& record.status is None && record.http_version is None
            &&& record.res_headers is None && record.res_body_file is None
            &&& record.res_body_size is None && record.websocket_id is None
            &&& record.start_time is None
        }),
{
}

/// A summary tells of the exchange under its number: the method, the URI, the status, the size and
/// the WebSocket as they are recorded, and that it does not wait.
pub proof fn law_summaries_tell_the_exchange(record: Record, id: usize)
    ensures
        record.head(id).id == id,
        record.head(id).method == record.method,
        record.head(id).uri == record.uri,
        record.head(id).status == record.status,
        record.head(id).size == record.res_body_size,
        record.head(id).websocket_id == record.websocket_id,
        !record.head(id).pending,
{
}

/// An exchange stays valid exactly as long as every filter agrees; an error comes behind those that
/// are recorded. Nothing else of the exchange changes by either.
pub proof fn law_filters_and_errors_change_little(record: Record, is_match: bool, error: Seq<char>)
    ensures
        record.checked(is_match).valid <==> record.valid && is_match,
        record.checked(is_match) == (Record { valid: record.checked(is_match).valid, ..record }),
        record.failed(error).errors.len() == record.errors.len() + 1,
        record.failed(error).errors.last() == error,
        record.failed(error).errors.drop_last() == record.errors,
        record.failed(error) == (Record { errors: record.failed(error).errors, ..record }),
{
    assert(record.failed(error).errors.drop_last() =~= record.errors);
}

/// The file of a body is named by the exchange, with five digits or more that read as its number,
/// by the side, and by the extensions, in this order.
pub proof fn law_files_are_named_by_the_exchange(
    gid: usize,
    ext: Seq<char>,
    encoding_ext: Seq<char>,
)
    ensures
        ({
            let number = text::padded(gid as nat, 5);
            &&& number.len() >= 5
            &&& number.skip(number.len() - text::decimal(gid as nat).len()) == text::decimal(
                gid as nat,
            )
            &&& req_file_name(gid, ext) == number + seq!['-', 'r', 'e', 'q'] + ext
            &&& res_file_name(gid, ext, encoding_ext) == number + seq!['-', 'r', 'e', 's'] + ext
                + encoding_ext
        }),
{
    reveal_strlit("-req");
    reveal_strlit("-res");
    assert("-req"@ =~= seq!['-', 'r', 'e', 'q']);
    assert("-res"@ =~= seq!['-', 'r', 'e', 's']);
    text::law_padding_is_zeros(gid as nat, 5, 0);
}

/// A record holds all that an exchange holds, and a summary all that it tells.
pub proof fn law_records_hold_the_exchange(t: Traffic, head: TrafficHead)
    ensures
        t@.gid == t.gid,
        t@.uri == t.uri@,
        t@.method == t.method@,
        t@.valid == t.valid,
        t@.status == t.status,
        t@.http_version == t.http_version,
        t@.res_body_size == t.res_body_size,
        t@.websocket_id == t.websocket_id,
        t@.start_time == t.start_time,
        t@.errors.len() == t.errors@.len(),
        forall|i: int| 0 <= i < t.errors@.len() ==> t@.errors[i] == (#[trigger] t.errors@[i])@,
        t@.req_body_file is Some <==> t.req_body_file is Some,
        t.req_body_file matches Some(path) ==> t@.req_body_file == Some(path@),
        t@.res_body_file is Some <==> t.res_body_file is Some,
        t.res_body_file matches Some(path) ==> t@.res_body_file == Some(path@),
        t@.req_headers is Some <==> t.req_headers is Some,
        t.req_headers matches Some(list) ==> t@.req_headers == Some(headers::listed(list@)),
        t@.res_headers is Some <==> t.res_headers is Some,
        t.res_headers matches Some(list) ==> t@.res_headers == Some(headers::listed(list@)),
        head@.id == head.id,
        head@.method == head.method@,
        head@.uri == head.uri@,
        head@.status == head.status,
        head@.size == head.size,
        head@.websocket_id == head.websocket_id,
        head@.pending == head.pending,
{
}

} // verus!
