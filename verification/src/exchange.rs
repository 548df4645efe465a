//! The course of an exchange: from the request of a client to the response that it gets.
use vstd::prelude::*;
use vstd::string::*;

use crate::edit::{Edit, ModifiedTraffic};
use crate::headers;
use crate::headers::{Fields, Header, Leg};
use crate::response;
use crate::response::{Content, Reply, ResBody, Response};
use crate::rules;
use crate::rules::RuleAction;
use crate::server::Server;
use crate::state;
use crate::state::{PendingEntry, PendingPhase, PendingResolution, Store};
use crate::text;
use crate::traffic;
use crate::traffic::{Head, HttpVersion, Record, Traffic, TrafficHead};

verus! {

broadcast use vstd::string::group_string_axioms;

/// A request under way: what is recorded, the header fields as they stand, the action of the rule
/// that takes it, and the body that an edit has put in place of the client's.
#[derive(Debug)]
pub struct Exchange {
    pub traffic: Traffic,
    pub headers: http::HeaderMap,
    pub action: Option<RuleAction>,
    pub body: Option<Vec<u8>>,
}

/// What a request is at its beginning.
#[derive(Debug)]
pub enum Begun {
    /// It asks for a tunnel.
    Connect(Traffic),
    /// It asks for an upgrade to WebSocket.
    Upgrade(Exchange),
    /// It goes on to its destination, at once or when a rule lets it.
    Forward(Exchange),
}

/// The title of an exchange, on which filters are tried.
pub open spec fn title_of(method: Seq<char>, uri: Seq<char>) -> Seq<char> {
    method + " "@ + uri
}

/// The title of an exchange, on which filters are tried.
pub fn title(method: &str, uri: &str) -> (r: String)
    ensures
        r@ == title_of(method@, uri@),
        r@ == method@ + " "@ + uri@,
{
    let mut r: String = text::chain(method, " ");
    r.append(uri);
    r
}

/// Whether a request under way is recorded as `record`, with its header fields listed.
pub open spec fn under_way(
    exchange: Exchange,
    record: Record,
    fields: Fields,
    action: Option<RuleAction>,
) -> bool {
    &&& headers::header_fields(exchange.headers) == fields
    &&& exchange.action == action
    &&& exchange.body is None
    &&& exchange.traffic@ == (Record { req_headers: exchange.traffic@.req_headers, ..record })
    &&& exchange.traffic@.req_headers matches Some(list) && headers::lists(fields, list)
}

/// What a request is at its beginning. A tunnel is recorded only where there are filters; an
/// upgrade is never held back.
pub open spec fn begins(
    begun: Begun,
    record: Record,
    fields: Fields,
    has_filters: bool,
    is_websocket: bool,
    action: Option<RuleAction>,
) -> bool {
    match begun {
        Begun::Connect(t) => {
            &&& record.method == "CONNECT"@
            &&& t@ == record.checked(has_filters)
        },
        Begun::Upgrade(x) => {
            &&& record.method != "CONNECT"@
            &&& is_websocket
            &&& under_way(x, record, fields, None)
        },
        Begun::Forward(x) => {
            &&& record.method != "CONNECT"@
            &&& !is_websocket
            &&& under_way(x, record, fields, action)
        },
    }
}

/// What is announced and answered where an exchange fails.
#[derive(Debug)]
pub struct Failure {
    pub response: Response,
    pub notice: Option<TrafficHead>,
    pub done: (usize, u64),
}

/// Whether a failure is the one of `record`: an empty answer, the record announced where the
/// filters let it pass, and the exchange done with nothing.
pub open spec fn fails(failure: Failure, record: Record, records: Seq<Record>) -> bool {
    &&& failure.response@ == Reply::bare(response::INTERNAL_SERVER_ERROR)
    &&& state::notice_view(failure.notice) == added_notice(records, record)
    &&& failure.done == (record.gid, 0u64)
}

/// The answer to a client whose exchange was held back and given up.
pub open spec fn given_up() -> Reply {
    Reply::bare(response::GATEWAY_TIMEOUT).text("Rule: cancelled or timed out"@)
}

/// The answer to a client where the body of the response could not be read.
pub open spec fn unread_body() -> Reply {
    Reply::bare(response::GATEWAY_TIMEOUT).text("Failed to buffer response body"@)
}

/// What comes of a wait for traffic that is held back: the edit, if there is any, or the answer
/// that tells the client that it was given up. No resolution comes where the wait was too long or
/// nobody can end it any more.
pub fn await_pending(resolution: Option<PendingResolution>) -> (r: Result<
    Option<ModifiedTraffic>,
    Response,
>)
    ensures
        match resolution {
            Some(PendingResolution::Continue(modified)) => r == Ok::<
                Option<ModifiedTraffic>,
                Response,
            >(modified),
            _ => r matches Err(res) && res@ == given_up(),
        },
{
    match resolution {
        Some(PendingResolution::Continue(modified)) => Ok(modified),
        _ => Err(Response::with_text(response::GATEWAY_TIMEOUT, "Rule: cancelled or timed out")),
    }
}

/// The answer where the body of a response could not be read.
pub fn buffer_failed() -> (r: Response)
    ensures
        r@ == unread_body(),
{
    Response::with_text(response::GATEWAY_TIMEOUT, "Failed to buffer response body")
}

/// What is announced when an exchange is held back: that it is there, then that it waits.
#[derive(Debug)]
pub struct Notices {
    pub first: Option<TrafficHead>,
    pub second: Option<TrafficHead>,
}

/// A request as it goes out: the header fields, and the body that an edit has put in place of the
/// client's.
#[derive(Debug)]
pub struct Outgoing {
    pub headers: Vec<Header>,
    pub body: Option<Vec<u8>>,
}

/// Whether a request goes out as it stands, without what concerns the connection to the client.
pub open spec fn goes_out_as(out: Outgoing, exchange: Exchange) -> bool {
    &&& headers::lists(
        headers::passed_on(headers::header_fields(exchange.headers), Leg::Http),
        headers::listed(out.headers@),
    )
    &&& body_view(out.body) == body_view(exchange.body)
}

/// Whether a request has been edited: its header fields, of which the record tells, and its body.
pub open spec fn request_edited(before: Exchange, after: Exchange, edit: Edit) -> bool {
    let fields = headers::edited_fields(headers::header_fields(before.headers), edit);
    &&& headers::header_fields(after.headers) == fields
    &&& after.traffic@ == (Record { req_headers: after.traffic@.req_headers, ..before.traffic@ })
    &&& after.traffic@.req_headers matches Some(list) && headers::lists(fields, list)
    &&& after.action == before.action
    &&& body_view(after.body) == edit.body
}

/// The summary of an exchange that was updated, under the number that it has.
pub open spec fn update_notice(records: Seq<Record>, record: Record) -> Option<Head> {
    match state::place_of(records, record.gid) {
        Some(i) => Some(record.head((i + 1) as usize)),
        None => None,
    }
}

/// The summary of an exchange that was added, where the filters let it pass.
pub open spec fn added_notice(records: Seq<Record>, record: Record) -> Option<Head> {
    if record.valid {
        Some(record.head((records.len() + 1) as usize))
    } else {
        None
    }
}

/// What became of the file that was to keep a body.
#[derive(Debug)]
pub enum Kept {
    /// None was wanted.
    No,
    /// It was made at a path.
    At(String),
    /// It could not be made at a path.
    Failed(String),
}

/// The content of an optional body.
pub open spec fn body_view(body: Option<Vec<u8>>) -> Option<Seq<u8>> {
    match body {
        Some(b) => Some(b@),
        None => None,
    }
}

/// The error where the file for a body could not be made.
pub open spec fn file_error_text(path: Seq<char>, side: Seq<char>) -> Seq<char> {
    "Failed to create file '"@ + path + "' to store "@ + side + " body"@
}

fn file_error(path: &str, side: &str) -> (r: String)
    ensures
        r@ == file_error_text(path@, side@),
{
    let mut r: String = text::chain("Failed to create file '", path);
    r.append("' to store ");
    r.append(side);
    r.append(" body");
    r
}

/// A response as it came from the destination.
#[derive(Debug)]
pub struct Incoming {
    pub status: u16,
    pub version: HttpVersion,
    pub headers: http::HeaderMap,
}

/// A response under way to the client.
#[derive(Debug)]
pub struct Answering {
    pub traffic: Traffic,
    pub response: Response,
    pub encoding: String,
}

/// What a response is at its beginning.
#[derive(Debug)]
pub enum Responding {
    /// A rule holds it back.
    Hold(Answering),
    /// It goes on at once.
    Pass(Answering),
}

/// Whether a response under way is what a response from the destination comes to: recorded as it
/// came, and with the last value alone of each of its header fields.
pub open spec fn answers(
    answering: Answering,
    record: Record,
    incoming: Incoming,
    mime_matches: bool,
) -> bool {
    let fields = headers::header_fields(incoming.headers);
    &&& answering.traffic@ == (Record {
        status: Some(incoming.status),
        http_version: Some(incoming.version),
        res_headers: answering.traffic@.res_headers,
        ..record.checked(mime_matches)
    })
    &&& answering.traffic@.res_headers matches Some(list) && headers::lists(fields, list)
    &&& answering.response@ == (Reply {
        status: incoming.status,
        fields: headers::last_values(fields),
        content: Content::Destination,
    })
    &&& answering.encoding@ == headers::last_text(
        headers::values_at(fields, "content-encoding"@),
    )
}

/// The response after an edit: the edited header fields, and the edited body in place of the one
/// that was read.
pub open spec fn edited_reply(reply: Reply, body: Seq<u8>, edit: Edit) -> Reply {
    Reply {
        fields: headers::edited_fields(reply.fields, edit),
        content: Content::Bytes(
            match edit.body {
                Some(b) => b,
                None => body,
            },
        ),
        ..reply
    }
}

/// The contents of two summaries.
pub open spec fn notices_view(notices: Notices) -> (Option<Head>, Option<Head>) {
    (state::notice_view(notices.first), state::notice_view(notices.second))
}

/// The state after a request was held back: its exchange is recorded.
pub open spec fn request_held<W>(store: Store<W>, record: Record, sender: W) -> Store<W> {
    store.recorded(record).held(
        record.gid,
        PendingEntry { sender, phase: PendingPhase::Request },
    )
}

/// What is announced when a request is held back.
pub open spec fn request_notices<W>(store: Store<W>, record: Record) -> (
    Option<Head>,
    Option<Head>,
) {
    (
        Some(record.head((store.records.len() + 1) as usize)),
        state::pending_notice(store.recorded(record).records, record.gid, true),
    )
}

/// The state after a response was held back: its exchange is recorded, in place of the first
/// record with its `gid` where there is one.
pub open spec fn response_held<W>(store: Store<W>, record: Record, sender: W) -> Store<W> {
    let recorded = match state::place_of(store.records, record.gid) {
        Some(_) => store.updated(record),
        None => store.recorded(record),
    };
    recorded.held(record.gid, PendingEntry { sender, phase: PendingPhase::Response })
}

/// What is announced when a response is held back.
pub open spec fn response_notices<W>(store: Store<W>, record: Record, sender: W) -> (
    Option<Head>,
    Option<Head>,
) {
    (
        match state::place_of(store.records, record.gid) {
            Some(i) => Some(record.head((i + 1) as usize)),
            None => Some(record.head((store.records.len() + 1) as usize)),
        },
        state::pending_notice(
            response_held(store, record, sender).records,
            record.gid,
            true,
        ),
    )
}

/// Begins a request, where it is known whether it asks for an upgrade and which action its rule
/// takes.
pub fn begin_given(
    traffic: Traffic,
    headers: http::HeaderMap,
    has_filters: bool,
    is_websocket: bool,
    action: Option<RuleAction>,
) -> (r: Begun)
    ensures
        begins(r, traffic@, headers::header_fields(headers), has_filters, is_websocket, action),
{
    let mut traffic: Traffic = traffic;
    if text::same(traffic.method.as_str(), "CONNECT") {
        traffic.check_match(has_filters);
        return Begun::Connect(traffic);
    }
    traffic.set_req_headers(&headers);
    if is_websocket {
        return Begun::Upgrade(Exchange { traffic, headers, action: None, body: None });
    }
    Begun::Forward(Exchange { traffic, headers, action, body: None })
}

/// The request as it goes out.
pub fn outgoing(exchange: &Exchange) -> (r: Outgoing)
    ensures
        goes_out_as(r, *exchange),
{
    let body: Option<Vec<u8>> = match &exchange.body {
        Some(b) => Some(headers::copy_bytes(b)),
        None => None,
    };
    Outgoing { headers: headers::forwarded_headers(&exchange.headers, Leg::Http), body }
}

impl<W> Server<W> {
    /// Whether there are filters.
    pub open spec fn has_filters(&self) -> bool {
        self.title_filters@.len() > 0 || self.mime_filters@.len() > 0
    }

    /// Whether a request begins as it asks, given of each rule whether the URI matches its pattern.
    pub open spec fn lets_begin(
        &self,
        begun: Begun,
        record: Record,
        fields: Fields,
        verdicts: Seq<bool>,
    ) -> bool {
        begins(
            begun,
            record,
            fields,
            self.has_filters(),
            headers::upgrade_requested(fields),
            rules::first_action(
                self.state@.rules,
                record.method,
                headers::upgrade_requested(fields),
                verdicts,
            ),
        )
    }

    /// Begins a request. `title_matches` is what the filters say of its title.
    pub fn begin(
        &self,
        gid: usize,
        uri: &str,
        method: &str,
        headers: http::HeaderMap,
        title_matches: bool,
    ) -> (r: Begun)
        requires
            self.wf(),
            rules::fits_glob(uri@),
        ensures
            !rules::has_backslash(uri@) ==> begins(
                r,
                Record::begun(gid, uri@, method@).checked(title_matches),
                headers::header_fields(headers),
                self.has_filters(),
                headers::upgrade_requested(headers::header_fields(headers)),
                rules::first_action(
                    self.state@.rules,
                    method@,
                    headers::upgrade_requested(headers::header_fields(headers)),
                    rules::uri_verdicts(self.state@.rules, uri@),
                ),
            ),
            exists|verdicts: Seq<bool>| #[trigger]
                verdicts.len() == self.state@.rules.len() && begins(
                    r,
                    Record::begun(gid, uri@, method@).checked(title_matches),
                    headers::header_fields(headers),
                    self.has_filters(),
                    headers::upgrade_requested(headers::header_fields(headers)),
                    rules::first_action(
                        self.state@.rules,
                        method@,
                        headers::upgrade_requested(headers::header_fields(headers)),
                        verdicts,
                    ),
                ),
            !rules::has_backslash(uri@) ==> self.lets_begin(
                r,
                Record::begun(gid, uri@, method@).checked(title_matches),
                headers::header_fields(headers),
                rules::uri_verdicts(self.state@.rules, uri@),
            ),
    {
        let mut traffic: Traffic = Traffic::new(gid, uri, method);
        traffic.check_match(title_matches);
        let has_filters: bool = self.title_filters.len() > 0 || self.mime_filters.len() > 0;
        if text::same(method, "CONNECT") {
            // A tunnel is no matter of rules: whatever they say, it begins in the same way.
            let ghost no_verdicts: Seq<bool> = Seq::new(self.state@.rules.len(), |i: int| false);
            proof {
                assert(no_verdicts.len() == self.state@.rules.len());
            }
            return begin_given(traffic, headers, has_filters, false, None);
        }
        let is_websocket: bool = headers::is_upgrade_request(&headers);
        let action: Option<RuleAction> = self.state.match_rules(method, uri, is_websocket);
        begin_given(traffic, headers, has_filters, is_websocket, action)
    }

    /// Gives an exchange up for an error, which is recorded.
    pub fn internal_server_error(&mut self, error: String, traffic: Traffic) -> (r: Failure)
        requires
            old(self).wf(),
        ensures
            final(self).wf(),
            *final(self) == (Server { state: final(self).state, ..*old(self) }),
            final(self).state@ == old(self).state@.added(traffic@.failed(error@)),
            fails(r, traffic@.failed(error@), old(self).state@.records),
    {
        let mut traffic: Traffic = traffic;
        let gid: usize = traffic.gid;
        traffic.add_error(error);
        let notice: Option<TrafficHead> = self.state.add_traffic(traffic);
        Failure {
            response: Response::bare(response::INTERNAL_SERVER_ERROR),
            notice,
            done: (gid, 0u64),
        }
    }

    /// Holds a request back until `sender` is told how it goes on. The exchange is recorded.
    pub(crate) fn hold_request(&mut self, exchange: &Exchange, sender: W) -> (r: Notices)
        requires
            old(self).wf(),
            exchange.traffic@.valid,
        ensures
            final(self).wf(),
            *final(self) == (Server { state: final(self).state, ..*old(self) }),
            final(self).state@ == request_held(old(self).state@, exchange.traffic@, sender),
            notices_view(r) == request_notices(old(self).state@, exchange.traffic@),
    {
        let (_, head) = self.state.add_traffic_early(&exchange.traffic);
        let second: Option<TrafficHead> = self.state.add_pending(
            exchange.traffic.gid,
            PendingPhase::Request,
            sender,
        );
        Notices { first: Some(head), second }
    }

    /// Takes up a request that was held back: as it was, edited, or given up. The result is the
    /// request and the summary to announce, or the answer to the client.
    pub fn resume_request(
        &mut self,
        exchange: Exchange,
        resolution: Option<PendingResolution>,
    ) -> (r: Result<(Exchange, Option<TrafficHead>), Response>)
        requires
            old(self).wf(),
            resolution matches Some(PendingResolution::Continue(Some(modified)))
                ==> headers::fits(modified@),
        ensures
            final(self).wf(),
            *final(self) == (Server { state: final(self).state, ..*old(self) }),
            match resolution {
                Some(PendingResolution::Continue(Some(modified))) => {
                    &&& r matches Ok((x, notice)) && request_edited(exchange, x, modified@)
                        && final(self).state@ == old(self).state@.updated(x.traffic@)
                        && state::notice_view(notice) == update_notice(
                        old(self).state@.records,
                        x.traffic@,
                    )
                },
                Some(PendingResolution::Continue(None)) => {
                    &&& r == Ok::<(Exchange, Option<TrafficHead>), Response>((exchange, None))
                    &&& *final(self) == *old(self)
                },
                _ => {
                    &&& r matches Err(res) && res@ == given_up()
                    &&& *final(self) == *old(self)
                },
            },
    {
        match await_pending(resolution) {
            Err(res) => Err(res),
            Ok(None) => Ok((exchange, None)),
            Ok(Some(modified)) => {
                let mut exchange: Exchange = exchange;
                headers::apply_modified_headers(&mut exchange.headers, &modified);
                exchange.traffic.set_req_headers(&exchange.headers);
                exchange.body = modified.body;
                let notice: Option<TrafficHead> = self.state.update_traffic(&exchange.traffic);
                Ok((exchange, notice))
            },
        }
    }

    /// Records where the body of a request is kept, or gives the exchange up where it cannot be.
    pub fn keep_request(&mut self, exchange: Exchange, kept: Kept) -> (r: Result<Exchange, Failure>)
        requires
            old(self).wf(),
        ensures
            final(self).wf(),
            *final(self) == (Server { state: final(self).state, ..*old(self) }),
            match kept {
                Kept::No => r == Ok::<Exchange, Failure>(exchange) && *final(self) == *old(self),
                Kept::At(path) => {
                    &&& r matches Ok(x) && x == (Exchange { traffic: x.traffic, ..exchange })
                        && x.traffic@ == (Record {
                        req_body_file: Some(path@),
                        ..exchange.traffic@
                    })
                    &&& *final(self) == *old(self)
                },
                Kept::Failed(path) => {
                    let record = exchange.traffic@.failed(file_error_text(path@, "request"@));
                    &&& r matches Err(failure) && fails(
                        failure,
                        record,
                        old(self).state@.records,
                    )
                    &&& final(self).state@ == old(self).state@.added(record)
                },
            },
    {
        let mut exchange: Exchange = exchange;
        match kept {
            Kept::No => Ok(exchange),
            Kept::At(path) => {
                exchange.traffic.set_req_body_file(path.as_str());
                Ok(exchange)
            },
            Kept::Failed(path) => Err(
                self.internal_server_error(file_error(path.as_str(), "request"), exchange.traffic),
            ),
        }
    }

    /// Takes in the response of a destination, of which a rule takes `action`. `mime_matches` is
    /// what the filters say of its media type.
    pub fn begin_response(
        &self,
        traffic: Traffic,
        incoming: Incoming,
        mime_matches: bool,
        action: &Option<RuleAction>,
    ) -> (r: Responding)
        requires
            headers::header_fields(incoming.headers).dom().len() <= headers::NAMES_MAX,
        ensures
            match r {
                Responding::Hold(x) => rules::holds_response(*action) && answers(
                    x,
                    traffic@,
                    incoming,
                    mime_matches,
                ),
                Responding::Pass(x) => !rules::holds_response(*action) && answers(
                    x,
                    traffic@,
                    incoming,
                    mime_matches,
                ),
            },
    {
        let mut traffic: Traffic = traffic;
        traffic.check_match(mime_matches);
        let (fields, encoding) = headers::response_headers(&incoming.headers);
        traffic.set_res_status(incoming.status);
        traffic.set_http_version(incoming.version);
        traffic.set_res_headers(&incoming.headers);
        let response: Response = Response {
            status: incoming.status,
            headers: fields,
            body: ResBody::Destination,
        };
        let answering: Answering = Answering { traffic, response, encoding };
        if rules::pauses_response(action) {
            Responding::Hold(answering)
        } else {
            Responding::Pass(answering)
        }
    }

    /// Holds a response back until `sender` is told how it goes on.
    pub(crate) fn hold_response(&mut self, traffic: &Traffic, sender: W) -> (r: Notices)
        requires
            old(self).wf(),
            traffic@.valid,
        ensures
            final(self).wf(),
            *final(self) == (Server { state: final(self).state, ..*old(self) }),
            final(self).state@ == response_held(old(self).state@, traffic@, sender),
            notices_view(r) == response_notices(old(self).state@, traffic@, sender),
    {
        let first: Option<TrafficHead> = if self.state.get_traffic_by_gid(traffic.gid).is_some() {
            self.state.update_traffic(traffic)
        } else {
            let (_, head) = self.state.add_traffic_early(traffic);
            Some(head)
        };
        let second: Option<TrafficHead> = self.state.add_pending(
            traffic.gid,
            PendingPhase::Response,
            sender,
        );
        Notices { first, second }
    }

    /// Passes a response on: its exchange is recorded, where the filters let it pass, and where the
    /// file for its body could be made. The result is the response and the summary to announce.
    pub fn pass_response(&mut self, answering: Answering, kept: Kept) -> (r: Result<
        (Response, Option<TrafficHead>),
        Failure,
    >)
        requires
            old(self).wf(),
        ensures
            final(self).wf(),
            *final(self) == (Server { state: final(self).state, ..*old(self) }),
            match kept {
                Kept::Failed(path) => {
                    let record = answering.traffic@.failed(file_error_text(path@, "response"@));
                    &&& r matches Err(failure) && fails(
                        failure,
                        record,
                        old(self).state@.records,
                    )
                    &&& final(self).state@ == old(self).state@.added(record)
                },
                _ => {
                    let record = kept_record(answering.traffic@, kept);
                    &&& r matches Ok((res, notice)) && res == answering.response
                        && state::notice_view(notice) == added_notice(
                        old(self).state@.records,
                        record,
                    )
                    &&& final(self).state@ == old(self).state@.added(record)
                },
            },
    {
        let mut traffic: Traffic = answering.traffic;
        match kept {
            Kept::No => {},
            Kept::At(path) => {
                traffic.set_res_body_file(path.as_str());
            },
            Kept::Failed(path) => {
                return Err(
                    self.internal_server_error(file_error(path.as_str(), "response"), traffic),
                );
            },
        }
        let notice: Option<TrafficHead> = self.state.add_traffic(traffic);
        Ok((answering.response, notice))
    }
}

/// The record with the file that keeps the body of the response, where there is one.
pub open spec fn kept_record(record: Record, kept: Kept) -> Record {
    match kept {
        Kept::At(path) => Record { res_body_file: Some(path@), ..record },
        _ => record,
    }
}

/// The record of a response that was read whole, with the file that keeps its body and how long it
/// was, where there is such a file.
pub open spec fn buffered_record(record: Record, kept: Kept, len: u64) -> Record {
    match kept {
        Kept::At(path) => Record {
            res_body_file: Some(path@),
            res_body_size: Some(len),
            ..record
        },
        _ => record,
    }
}

/// The answer that a response which was held back comes to.
pub open spec fn resumed_reply(
    reply: Reply,
    body: Seq<u8>,
    resolution: Option<PendingResolution>,
) -> Reply {
    match resolution {
        Some(PendingResolution::Continue(Some(modified))) => edited_reply(
            reply,
            body,
            modified@,
        ),
        Some(PendingResolution::Continue(None)) => reply.content(Content::Bytes(body)),
        _ => given_up(),
    }
}

/// Records a response that was read whole: the file that keeps its body and how long it was, where
/// there is such a file.
pub fn keep_buffered(traffic: &mut Traffic, kept: &Kept, len: u64)
    ensures
        final(traffic)@ == buffered_record(old(traffic)@, *kept, len),
{
    match kept {
        Kept::At(path) => {
            traffic.set_res_body_file(path.as_str());
            traffic.done_res_body(len);
        },
        _ => {},
    }
}

/// Takes up a response that was held back: as it was, edited, or given up.
pub fn resume_response(
    response: Response,
    body: Vec<u8>,
    resolution: Option<PendingResolution>,
) -> (r: Response)
    requires
        resolution matches Some(PendingResolution::Continue(Some(modified))) ==> headers::fits(
            modified@,
        ),
    ensures
        r@ == resumed_reply(response@, body@, resolution),
{
    match await_pending(resolution) {
        Err(res) => res,
        Ok(None) => Response { body: ResBody::Bytes(body), ..response },
        Ok(Some(modified)) => {
            let mut response: Response = response;
            headers::apply_modified_headers(&mut response.headers, &modified);
            let body: Vec<u8> = match modified.body {
                Some(edited) => edited,
                None => body,
            };
            response.body = ResBody::Bytes(body);
            response
        },
    }
}

/// A response that is held back and not let go on never reaches the client: whatever it was, and
/// whether it was cancelled or nobody has ended the wait, the answer is that of a gateway that has
/// waited too long, with these words and their length and nothing else.
pub proof fn law_what_is_cancelled_is_not_delivered(
    reply: Reply,
    body: Seq<u8>,
    other: Reply,
    other_body: Seq<u8>,
    resolution: Option<PendingResolution>,
    name: Seq<char>,
)
    requires
        resolution is None || resolution == Some(PendingResolution::Cancel),
    ensures
        resumed_reply(reply, body, resolution).status == 504,
        resumed_reply(reply, body, resolution).content == Content::Text(
            "Rule: cancelled or timed out"@,
        ),
        resumed_reply(reply, body, resolution).fields.contains_key(name) ==> name
            == "content-length"@,
        resumed_reply(reply, body, resolution) == resumed_reply(other, other_body, resolution),
        resumed_reply(reply, body, None) == resumed_reply(
            reply,
            body,
            Some(PendingResolution::Cancel),
        ),
{
}

/// A response that is let go on has the status that it had. Unedited it has its fields and the body
/// that was read; an edit of the fields leaves the body, and an edited body takes its place.
pub proof fn law_what_is_continued_is_delivered(
    reply: Reply,
    body: Seq<u8>,
    modified: ModifiedTraffic,
)
    ensures
        resumed_reply(reply, body, Some(PendingResolution::Continue(None))) == (Reply {
            status: reply.status,
            fields: reply.fields,
            content: Content::Bytes(body),
        }),
        ({
            let edited = resumed_reply(
                reply,
                body,
                Some(PendingResolution::Continue(Some(modified))),
            );
            &&& edited.status == reply.status
            &&& edited.content == (match modified.body {
                Some(b) => Content::Bytes(b@),
                None => Content::Bytes(body),
            })
            &&& modified.headers is None && modified.body is None ==> edited.fields == reply.fields
            &&& modified.body is Some ==> !edited.fields.contains_key("content-length"@)
                && !edited.fields.contains_key("content-encoding"@)
        }),
{
}

/// The answers with which an exchange is given up: the words for it under the status of a gateway
/// that has waited too long.
pub proof fn law_given_up_exchanges_are_answered(name: Seq<char>)
    ensures
        given_up().status == 504,
        given_up().content == Content::Text("Rule: cancelled or timed out"@),
        given_up().fields.contains_key(name) ==> name == "content-length"@,
        unread_body().status == 504,
        unread_body().content == Content::Text("Failed to buffer response body"@),
        unread_body().fields.contains_key(name) ==> name == "content-length"@,
{
}

/// An exchange that fails is answered with nothing but that the server has failed, and is done with
/// no bytes; that it failed is announced where the filters let it pass, under the next number.
pub proof fn law_failures_are_answered(
    failure: Failure,
    record: Record,
    records: Seq<Record>,
    name: Seq<char>,
)
    requires
        fails(failure, record, records),
        records.len() < usize::MAX,
    ensures
        failure.response@.status == 500,
        failure.response@.content == Content::Empty,
        !failure.response@.fields.contains_key(name),
        failure.done.0 == record.gid,
        failure.done.1 == 0,
        failure.notice is Some <==> record.valid,
        failure.notice matches Some(head) ==> {
            &&& head.id == records.len() + 1
            &&& head.method@ == record.method
            &&& head.uri@ == record.uri
            &&& head.status == record.status
            &&& head.size == record.res_body_size
            &&& head.websocket_id == record.websocket_id
            &&& !head.pending
        },
{
}

/// What a request is at its beginning goes by its method and its fields: `CONNECT` asks for a
/// tunnel, an upgrade to WebSocket is one and is never held back, and all else goes on with the
/// action of its rule. The filters have the last word on a tunnel alone.
pub proof fn law_requests_begin_as_they_ask(
    begun: Begun,
    record: Record,
    fields: Fields,
    has_filters: bool,
    is_websocket: bool,
    action: Option<RuleAction>,
)
    requires
        begins(begun, record, fields, has_filters, is_websocket, action),
    ensures
        begun is Connect <==> record.method == "CONNECT"@,
        begun is Upgrade <==> record.method != "CONNECT"@ && is_websocket,
        begun is Forward <==> record.method != "CONNECT"@ && !is_websocket,
        begun matches Begun::Connect(t) ==> {
            &&& t.valid == (record.valid && has_filters)
            &&& t.gid == record.gid
            &&& t.uri@ == record.uri
            &&& t.method@ == record.method
            &&& t@.errors == record.errors
        },
        begun matches Begun::Upgrade(x) ==> {
            &&& x.action is None
            &&& x.body is None
            &&& x.traffic.valid == record.valid
            &&& x.traffic.gid == record.gid
            &&& x.traffic.uri@ == record.uri
            &&& x.traffic.method@ == record.method
            &&& headers::header_fields(x.headers) == fields
        },
        begun matches Begun::Forward(x) ==> {
            &&& x.action == action
            &&& x.body is None
            &&& x.traffic.valid == record.valid
            &&& x.traffic.gid == record.gid
            &&& x.traffic.uri@ == record.uri
            &&& x.traffic.method@ == record.method
            &&& headers::header_fields(x.headers) == fields
        },
{
}

/// Of a request under way every field of the client is recorded, and nothing else.
pub proof fn law_requests_are_recorded_with_their_fields(
    x: Exchange,
    record: Record,
    fields: Fields,
    action: Option<RuleAction>,
    name: Seq<char>,
)
    requires
        under_way(x, record, fields, action),
    ensures
        x.traffic@.req_headers matches Some(list) && headers::listed_values(list, name)
            == headers::values_at(fields, name),
{
}

/// A response is recorded as it came: its status, its version and all of its fields; it reaches the
/// client with the same status, with the last value of each field and with the body that the
/// destination sends. It is left out where the filters turn its media type down.
pub proof fn law_responses_are_recorded_as_they_came(
    y: Answering,
    record: Record,
    incoming: Incoming,
    mime_matches: bool,
    name: Seq<char>,
)
    requires
        answers(y, record, incoming, mime_matches),
    ensures
        y.traffic.status == Some(incoming.status),
        y.traffic.http_version == Some(incoming.version),
        y.traffic.valid == (record.valid && mime_matches),
        y.traffic.gid == record.gid,
        y.traffic.uri@ == record.uri,
        y.traffic.method@ == record.method,
        y.traffic@.req_headers == record.req_headers,
        y.traffic@.req_body_file == record.req_body_file,
        y.traffic@.start_time == record.start_time,
        y.traffic@.websocket_id == record.websocket_id,
        y.traffic@.errors == record.errors,
        y.traffic@.res_headers matches Some(list) && headers::listed_values(list, name)
            == headers::values_at(headers::header_fields(incoming.headers), name),
        y.response@.status == incoming.status,
        y.response@.content == Content::Destination,
        y.encoding@ == headers::last_text(
            headers::values_at(headers::header_fields(incoming.headers), "content-encoding"@),
        ),
        ({
            let fields = headers::header_fields(incoming.headers);
            &&& y.response@.fields.contains_key(name) == fields.contains_key(name)
            &&& fields.contains_key(name) ==> y.response@.fields[name] == seq![
                fields[name].last(),
            ]
        }),
{
}

/// An edited request goes on with the fields and the body of the edit, and is recorded with these
/// fields; it stays the same exchange under the same rule.
pub proof fn law_edited_requests_are_the_edit(
    before: Exchange,
    after: Exchange,
    edit: Edit,
    name: Seq<char>,
)
    requires
        request_edited(before, after, edit),
    ensures
        after.body is Some <==> edit.body is Some,
        after.body matches Some(b) ==> edit.body == Some(b@),
        after.action == before.action,
        after.traffic.gid == before.traffic.gid,
        after.traffic.valid == before.traffic.valid,
        after.traffic.uri@ == before.traffic.uri@,
        after.traffic.method@ == before.traffic.method@,
        edit.headers is None && edit.body is None ==> headers::header_fields(after.headers)
            == headers::header_fields(before.headers),
        edit.headers is Some && edit.body is None ==> headers::header_fields(after.headers)
            == headers::rebuilt(edit.headers->0),
        after.traffic@.req_headers matches Some(list) && headers::listed_values(list, name)
            == headers::values_at(headers::header_fields(after.headers), name),
{
}

/// A request goes out with every value of every field that it has, but for those that concern the
/// connection to the client, and with the body that an edit has given it, if there is one.
pub proof fn law_requests_go_out_as_they_stand(out: Outgoing, x: Exchange, name: Seq<char>)
    requires
        goes_out_as(out, x),
    ensures
        out.body is Some <==> x.body is Some,
        out.body matches Some(b) ==> x.body is Some && b@ == x.body->0@,
        headers::listed_values(headers::listed(out.headers@), name) == (if name == "host"@ || name
            == "connection"@ || name == "proxy-authorization"@ || name == "transfer-encoding"@
            || name == "upgrade"@ || name == "te"@ || name == "keep-alive"@ || name
            == "proxy-connection"@ {
            Seq::empty()
        } else {
            headers::values_at(headers::header_fields(x.headers), name)
        }),
{
}

/// A request that is held back is recorded as it stands, behind all others, and is then held back
/// as a request under its own number; it is announced twice, the second time as one that waits.
pub proof fn law_held_requests_are_recorded<W>(store: Store<W>, record: Record, sender: W)
    requires
        state::place_of(store.records, record.gid) is None,
        store.records.len() < usize::MAX,
    ensures
        request_held(store, record, sender).records == store.records.push(record),
        request_held(store, record, sender).pending == store.pending.insert(
            record.gid,
            PendingEntry { sender, phase: PendingPhase::Request },
        ),
        request_held(store, record, sender).rules == store.rules,
        request_held(store, record, sender).sockets == store.sockets,
        request_notices(store, record).0 matches Some(head) && head.id == store.records.len() + 1
            && head.uri == record.uri && head.method == record.method && !head.pending,
        request_notices(store, record).1 matches Some(head) && head.id == store.records.len() + 1
            && head.uri == record.uri && head.method == record.method && head.pending,
{
    state::law_only_the_last_has_it(store.records, record);
}

/// A response that is held back is recorded once: in the place of its request, where that was
/// recorded, and else behind all others. It is then held back as a response, and announced twice
/// under its number, the second time as one that waits.
pub proof fn law_held_responses_are_recorded<W>(store: Store<W>, record: Record, sender: W)
    requires
        store.records.len() < usize::MAX,
    ensures
        ({
            let held = response_held(store, record, sender);
            let heads = response_notices(store, record, sender);
            let at = match state::place_of(store.records, record.gid) {
                Some(i) => i,
                None => store.records.len() as int,
            };
            &&& state::place_of(store.records, record.gid) is Some ==> held.records.len()
                == store.records.len()
            &&& state::place_of(store.records, record.gid) is None ==> held.records.len()
                == store.records.len() + 1
            &&& 0 <= at < held.records.len()
            &&& held.records[at] == record
            &&& forall|i: int|
                0 <= i < store.records.len() && i != at ==> #[trigger] held.records[i]
                    == store.records[i]
            &&& held.pending == store.pending.insert(
                record.gid,
                PendingEntry { sender, phase: PendingPhase::Response },
            )
            &&& held.rules == store.rules
            &&& held.sockets == store.sockets
            &&& heads.0 matches Some(head) && head.id == at + 1 && head.uri == record.uri
                && head.status == record.status && head.size == record.res_body_size
                && !head.pending
            &&& heads.1 matches Some(head) && head.id == at + 1 && head.uri == record.uri
                && head.status == record.status && head.size == record.res_body_size
                && head.pending
        }),
{
    state::lemma_place_in_range(store.records, record.gid);
    match state::place_of(store.records, record.gid) {
        Some(i) => {
            state::law_replacing_keeps_the_place(store.records, record);
        },
        None => {
            state::law_only_the_last_has_it(store.records, record);
        },
    }
}

/// The file of a body is recorded where it was made, and nothing else of the exchange changes; of a
/// body that was read whole its length is recorded beside it.
pub proof fn law_files_are_recorded(record: Record, kept: Kept, len: u64)
    ensures
        kept matches Kept::At(path) ==> {
            &&& kept_record(record, kept) == (Record { res_body_file: Some(path@), ..record })
            &&& buffered_record(record, kept, len) == (Record {
                res_body_file: Some(path@),
                res_body_size: Some(len),
                ..record
            })
        },
        !(kept is At) ==> kept_record(record, kept) == record,
        !(kept is At) ==> buffered_record(record, kept, len) == record,
{
}

/// An error over a file tells the path of the file and whose body it was to store.
pub proof fn law_file_errors_tell_the_path(path: Seq<char>)
    ensures
        file_error_text(path, "request"@) == "Failed to create file '"@ + path
            + "' to store request body"@,
        file_error_text(path, "response"@) == "Failed to create file '"@ + path
            + "' to store response body"@,
{
    reveal_strlit("request");
    reveal_strlit("response");
    reveal_strlit("' to store ");
    reveal_strlit(" body");
    reveal_strlit("' to store request body");
    reveal_strlit("' to store response body");
    assert("' to store "@ + "request"@ + " body"@ =~= "' to store request body"@);
    assert("' to store "@ + "response"@ + " body"@ =~= "' to store response body"@);
    assert(file_error_text(path, "request"@) =~= "Failed to create file '"@ + path + ("' to store "@
        + "request"@ + " body"@));
    assert(file_error_text(path, "response"@) =~= "Failed to create file '"@ + path + (
    "' to store "@ + "response"@ + " body"@));
}

/// There are filters exactly where there is one on titles or one on media types.
pub proof fn law_any_filter_is_a_filter<W>(server: Server<W>)
    ensures
        server.has_filters() <==> server.title_filters@.len() > 0 || server.mime_filters@.len() > 0,
{
}

/// An exchange that was added is announced under the next number, exactly where the filters let it
/// pass; one that was updated is announced under the number that it has, exactly where it is
/// recorded.
pub proof fn law_changes_are_announced(records: Seq<Record>, record: Record)
    requires
        records.len() < usize::MAX,
    ensures
        added_notice(records, record) is Some <==> record.valid,
        added_notice(records, record) matches Some(head) ==> head.id == records.len() + 1
            && head.uri == record.uri && head.method == record.method && head.status
            == record.status && head.size == record.res_body_size && head.websocket_id
            == record.websocket_id && !head.pending,
        update_notice(records, record) is Some <==> exists|i: int|
            0 <= i < records.len() && (#[trigger] records[i]).gid == record.gid,
        update_notice(records, record) matches Some(head) ==> 1 <= head.id <= records.len()
            && records[head.id - 1].gid == record.gid && head.uri == record.uri && head.method
            == record.method && head.status == record.status && head.size == record.res_body_size
            && head.websocket_id == record.websocket_id && !head.pending,
{
    state::law_places_are_found(records, record.gid);
}

/// The title of an exchange is its method and its URI with a blank between them.
pub proof fn law_titles_tell_method_and_uri(method: Seq<char>, uri: Seq<char>)
    ensures
        method.is_prefix_of(title_of(method, uri)),
        title_of(method, uri).len() == method.len() + 1 + uri.len(),
        title_of(method, uri)[method.len() as int] == ' ',
        title_of(method, uri).skip(method.len() as int + 1) == uri,
{
    reveal_strlit(" ");
    let title = title_of(method, uri);
    assert(method =~= title.subrange(0, method.len() as int));
    assert(title.skip(method.len() as int + 1) =~= uri);
}

/// A request begins with its own number, URI and method, and with what the filters say of its
/// title; it is a tunnel, an upgrade or a request to go on by its method and its fields alone, a
/// tunnel is left out where there are no filters, and a request to go on has the action of the
/// first rule that takes it, if any does.
pub proof fn law_requests_are_begun<W>(
    server: Server<W>,
    begun: Begun,
    gid: usize,
    uri: Seq<char>,
    method: Seq<char>,
    fields: Fields,
    title_matches: bool,
)
    requires
        server.lets_begin(
            begun,
            Record::begun(gid, uri, method).checked(title_matches),
            fields,
            rules::uri_verdicts(server.state@.rules, uri),
        ),
    ensures
        begun is Connect <==> method == "CONNECT"@,
        begun is Upgrade <==> method != "CONNECT"@ && headers::upgrade_requested(fields),
        begun matches Begun::Connect(t) ==> t.gid == gid && t.uri@ == uri && t.valid == (
        title_matches && (server.title_filters@.len() > 0 || server.mime_filters@.len() > 0)),
        begun matches Begun::Upgrade(x) ==> x.traffic.gid == gid && x.traffic.uri@ == uri
            && x.traffic.valid == title_matches && x.action is None,
        begun matches Begun::Forward(x) ==> x.traffic.gid == gid && x.traffic.uri@ == uri
            && x.traffic.method@ == method && x.traffic.valid == title_matches && x.action
            == rules::first_action(
            server.state@.rules,
            method,
            false,
            rules::uri_verdicts(server.state@.rules, uri),
        ),
{
}

} // verus!
