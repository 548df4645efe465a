//! The course of an exchange, step by step: what it waits for, what comes of it, what is done next.
use vstd::prelude::*;
use vstd::string::*;

use crate::edit::ModifiedTraffic;
use crate::exchange;
use crate::exchange::{
    Answering, Exchange, Failure, Incoming, Kept, Notices, Outgoing, Responding,
};
use crate::headers;
use crate::response;
use crate::response::{Content, Reply, ResBody, Response};
use crate::rules;
use crate::rules::RuleAction;
use crate::server::Server;
use crate::state;
use crate::state::{PendingResolution, Store};
use crate::traffic::{Head, Record, Traffic, TrafficHead};

verus! {

broadcast use vstd::string::group_string_axioms;

/// What an exchange waits for.
#[derive(Debug)]
pub enum Stage {
    /// How a request that is held back goes on.
    RequestHeld(Exchange),
    /// The file that keeps the body of the request.
    KeepingRequest(Exchange),
    /// The response of the destination.
    Sending(Exchange),
    /// The whole body of a response that is to be held back.
    Reading(Answering),
    /// The file that keeps this body.
    KeepingBuffered(Answering, Vec<u8>),
    /// How a response that is held back goes on.
    ResponseHeld(Answering, Vec<u8>),
    /// The file that keeps the body of a response that is passed through.
    KeepingResponse(Answering),
}

/// What an exchange has waited for.
#[derive(Debug)]
pub enum Event {
    /// Traffic that was held back goes on; none comes where the wait was too long or nobody can end
    /// it any more.
    Resolved(Option<PendingResolution>),
    /// What became of a file.
    Kept(Kept),
    /// When the request went out, what the destination answered, and what the filters say of the
    /// media type of the answer.
    Answered(i128, Result<Incoming, String>, bool),
    /// A body, where it could be read.
    Read(Option<Vec<u8>>),
}

/// What is done next.
#[derive(Debug)]
pub enum Act {
    /// Wait until the traffic that is held back goes on.
    Wait,
    /// Make the file for the body of the request.
    KeepRequest,
    /// Send the request out.
    Send(Outgoing),
    /// Read the body of the response.
    ReadBody,
    /// Make the file for the body of the response.
    KeepResponse,
    /// Answer the client.
    Respond(Response),
}

/// A step: what the exchange waits for then, if it has not ended; what is done; the summaries to
/// announce, in order; and the exchange that is done, with nothing, where it has failed.
#[derive(Debug)]
pub struct Step {
    pub stage: Option<Stage>,
    pub act: Act,
    pub news: Vec<TrafficHead>,
    pub done: Option<(usize, u64)>,
}

/// What is told by a summary that may be there.
pub open spec fn told(head: Option<Head>) -> Seq<Head> {
    match head {
        Some(h) => seq![h],
        None => Seq::empty(),
    }
}

/// What is told by two summaries that may be there.
pub open spec fn told_both(heads: (Option<Head>, Option<Head>)) -> Seq<Head> {
    told(heads.0) + told(heads.1)
}

/// Whether a step changes nothing and tells nothing.
pub open spec fn is_quiet<W>(old: Store<W>, new: Store<W>, step: Step) -> bool {
    new == old && step.news@.len() == 0 && step.done is None
}

/// Whether a step ends the exchange with an answer.
pub open spec fn ends(step: Step, reply: Reply) -> bool {
    &&& step.stage is None
    &&& step.act matches Act::Respond(res) && res@ == reply
}

/// Whether a step gives the exchange up, and records it as `record`.
pub open spec fn gives_up<W>(old: Store<W>, new: Store<W>, step: Step, record: Record) -> bool {
    &&& ends(step, Reply::bare(response::INTERNAL_SERVER_ERROR))
    &&& new == old.added(record)
    &&& state::head_views(step.news@) == told(exchange::added_notice(old.records, record))
    &&& step.done == Some((record.gid, 0u64))
}

/// The request that a step carries on.
pub open spec fn carried(step: Step) -> Option<Exchange> {
    match step.stage {
        Some(Stage::KeepingRequest(x)) => Some(x),
        Some(Stage::Sending(x)) => Some(x),
        _ => None,
    }
}

/// Whether a step sends a request out.
pub open spec fn sends(step: Step, x: Exchange) -> bool {
    &&& step.stage == Some(Stage::Sending(x))
    &&& step.act matches Act::Send(out) && exchange::goes_out_as(out, x)
    &&& step.done is None
}

/// Whether a step brings a request on its way: first its body is kept, where the filters let the
/// exchange pass.
pub open spec fn forwards(step: Step, x: Exchange) -> bool {
    if x.traffic@.valid {
        &&& step.stage == Some(Stage::KeepingRequest(x))
        &&& step.act is KeepRequest
        &&& step.done is None
    } else {
        sends(step, x)
    }
}

/// Whether a step begins an exchange: the request is held back, where a rule says so and the
/// filters let the exchange pass, or it goes on its way.
pub open spec fn starts<W>(
    old: Store<W>,
    new: Store<W>,
    x: Exchange,
    sender: W,
    step: Step,
) -> bool {
    if rules::holds_request(x.action) && x.traffic@.valid {
        &&& step.stage == Some(Stage::RequestHeld(x))
        &&& step.act is Wait
        &&& step.done is None
        &&& new == exchange::request_held(old, x.traffic@, sender)
        &&& state::head_views(step.news@) == told_both(
            exchange::request_notices(old, x.traffic@),
        )
    } else {
        &&& forwards(step, x)
        &&& is_quiet(old, new, step)
    }
}

/// Whether a step takes in a response. Where the filters let the exchange pass, it is read whole if
/// a rule holds it back, and else its body is kept; where they do not, it reaches the client at
/// once.
pub open spec fn receives<W>(
    old: Store<W>,
    new: Store<W>,
    record: Record,
    incoming: Incoming,
    mime_matches: bool,
    action: Option<RuleAction>,
    step: Step,
) -> bool {
    &&& is_quiet(old, new, step)
    &&& if rules::holds_response(action) && record.valid && mime_matches {
        &&& step.stage matches Some(Stage::Reading(y)) && exchange::answers(
            y,
            record,
            incoming,
            mime_matches,
        )
        &&& step.act is ReadBody
    } else if record.valid && mime_matches {
        &&& step.stage matches Some(Stage::KeepingResponse(y)) && exchange::answers(
            y,
            record,
            incoming,
            mime_matches,
        )
        &&& step.act is KeepResponse
    } else {
        ends(
            step,
            Reply {
                status: incoming.status,
                fields: headers::last_values(headers::header_fields(incoming.headers)),
                content: Content::Destination,
            },
        )
    }
}

/// Whether a step holds a response back.
pub open spec fn holds<W>(
    old: Store<W>,
    new: Store<W>,
    y: Answering,
    body: Seq<u8>,
    sender: W,
    step: Step,
) -> bool {
    &&& step.stage matches Some(Stage::ResponseHeld(z, b)) && z == y && b@ == body
    &&& step.act is Wait
    &&& step.done is None
    &&& new == exchange::response_held(old, y.traffic@, sender)
    &&& state::head_views(step.news@) == told_both(
        exchange::response_notices(old, y.traffic@, sender),
    )
}

/// The response under way that a step carries on.
pub open spec fn answer_of(step: Step) -> Option<Answering> {
    match step.stage {
        Some(Stage::ResponseHeld(y, _)) => Some(y),
        _ => None,
    }
}

/// Whether an exchange waits for such an event.
pub open spec fn awaits(stage: Stage, event: Event) -> bool {
    match (stage, event) {
        (Stage::RequestHeld(_), Event::Resolved(_)) => true,
        (Stage::KeepingRequest(_), Event::Kept(_)) => true,
        (Stage::Sending(_), Event::Answered(..)) => true,
        (Stage::Reading(_), Event::Read(_)) => true,
        (Stage::KeepingBuffered(..), Event::Kept(_)) => true,
        (Stage::ResponseHeld(..), Event::Resolved(_)) => true,
        (Stage::KeepingResponse(_), Event::Kept(_)) => true,
        _ => false,
    }
}

/// Whether an event has no more header fields than a header map takes.
pub open spec fn is_bounded(event: Event) -> bool {
    match event {
        Event::Resolved(Some(PendingResolution::Continue(Some(m)))) => headers::fits(m@),
        Event::Answered(_, Ok(incoming), _) => headers::header_fields(
            incoming.headers,
        ).dom().len() <= headers::NAMES_MAX,
        _ => true,
    }
}

/// What a step does.
pub open spec fn steps<W>(
    old: Store<W>,
    new: Store<W>,
    stage: Stage,
    event: Event,
    sender: W,
    step: Step,
) -> bool {
    match (stage, event) {
        (Stage::RequestHeld(x), Event::Resolved(resolution)) => match resolution {
            Some(PendingResolution::Continue(Some(m))) => {
                &&& carried(step) matches Some(y) && exchange::request_edited(x, y, m@)
                    && forwards(step, y) && new == old.updated(y.traffic@) && state::head_views(
                    step.news@,
                ) == told(exchange::update_notice(old.records, y.traffic@))
            },
            Some(PendingResolution::Continue(None)) => {
                &&& forwards(step, x)
                &&& is_quiet(old, new, step)
            },
            _ => {
                &&& ends(step, exchange::given_up())
                &&& is_quiet(old, new, step)
            },
        },
        (Stage::KeepingRequest(x), Event::Kept(kept)) => match kept {
            Kept::No => {
                &&& sends(step, x)
                &&& is_quiet(old, new, step)
            },
            Kept::At(path) => {
                &&& carried(step) matches Some(y) && y == (Exchange { traffic: y.traffic, ..x })
                    && y.traffic@ == (Record { req_body_file: Some(path@), ..x.traffic@ })
                    && sends(step, y)
                &&& is_quiet(old, new, step)
            },
            Kept::Failed(path) => gives_up(
                old,
                new,
                step,
                x.traffic@.failed(exchange::file_error_text(path@, "request"@)),
            ),
        },
        (Stage::Sending(x), Event::Answered(start, result, mime_matches)) => {
            let sent = Record { start_time: Some(start), ..x.traffic@ };
            match result {
                Err(error) => gives_up(old, new, step, sent.failed(error@)),
                Ok(incoming) => receives(old, new, sent, incoming, mime_matches, x.action, step),
            }
        },
        (Stage::Reading(y), Event::Read(read)) => match read {
            None => {
                &&& ends(step, exchange::unread_body())
                &&& is_quiet(old, new, step)
            },
            Some(body) => if y.traffic@.valid {
                &&& step.stage == Some(Stage::KeepingBuffered(y, body))
                &&& step.act is KeepResponse
                &&& is_quiet(old, new, step)
            } else {
                &&& ends(step, y.response@.content(Content::Bytes(body@)))
                &&& is_quiet(old, new, step)
            },
        },
        (Stage::KeepingBuffered(y, body), Event::Kept(kept)) => if y.traffic@.valid {
            &&& answer_of(step) matches Some(z) && z == (Answering { traffic: z.traffic, ..y })
                && z.traffic@ == exchange::buffered_record(y.traffic@, kept, body@.len() as u64)
                && holds(old, new, z, body@, sender, step)
        } else {
            &&& ends(step, y.response@.content(Content::Bytes(body@)))
            &&& is_quiet(old, new, step)
        },
        (Stage::ResponseHeld(y, body), Event::Resolved(resolution)) => {
            &&& ends(step, exchange::resumed_reply(y.response@, body@, resolution))
            &&& is_quiet(old, new, step)
        },
        (Stage::KeepingResponse(y), Event::Kept(kept)) => match kept {
            Kept::Failed(path) => gives_up(
                old,
                new,
                step,
                y.traffic@.failed(exchange::file_error_text(path@, "response"@)),
            ),
            _ => {
                let record = exchange::kept_record(y.traffic@, kept);
                &&& ends(step, y.response@)
                &&& new == old.added(record)
                &&& state::head_views(step.news@) == told(
                    exchange::added_notice(old.records, record),
                )
                &&& step.done is None
            },
        },
        _ => false,
    }
}

fn news_of(notice: Option<TrafficHead>) -> (r: Vec<TrafficHead>)
    ensures
        state::head_views(r@) == told(state::notice_view(notice)),
        notice is None ==> r@.len() == 0,
{
    let mut r: Vec<TrafficHead> = Vec::new();
    match notice {
        Some(head) => {
            r.push(head);
        },
        None => {},
    }
    proof {
        assert(state::head_views(r@) =~= told(state::notice_view(notice)));
    }
    r
}

fn news_of_both(notices: Notices) -> (r: Vec<TrafficHead>)
    ensures
        state::head_views(r@) == told_both(exchange::notices_view(notices)),
{
    let ghost heads = exchange::notices_view(notices);
    let mut r: Vec<TrafficHead> = news_of(notices.first);
    let ghost first = r@;
    match notices.second {
        Some(head) => {
            r.push(head);
        },
        None => {},
    }
    proof {
        assert(state::head_views(r@) =~= state::head_views(first) + told(heads.1));
    }
    r
}

fn quiet(stage: Option<Stage>, act: Act) -> (r: Step)
    ensures
        r.stage == stage,
        r.act == act,
        r.news@.len() == 0,
        r.done is None,
{
    Step { stage, act, news: Vec::new(), done: None }
}

fn give_up(failure: Failure) -> (r: Step)
    ensures
        r.stage is None,
        r.act == Act::Respond(failure.response),
        state::head_views(r.news@) == told(state::notice_view(failure.notice)),
        r.done == Some(failure.done),
{
    Step {
        stage: None,
        act: Act::Respond(failure.response),
        news: news_of(failure.notice),
        done: Some(failure.done),
    }
}

fn send(x: Exchange, news: Vec<TrafficHead>) -> (r: Step)
    ensures
        sends(r, x),
        r.news == news,
{
    let out: Outgoing = exchange::outgoing(&x);
    Step { stage: Some(Stage::Sending(x)), act: Act::Send(out), news, done: None }
}

fn with_body(response: Response, body: Vec<u8>) -> (r: Response)
    ensures
        r@ == response@.content(Content::Bytes(body@)),
{
    Response { body: ResBody::Bytes(body), ..response }
}

fn forward(x: Exchange, news: Vec<TrafficHead>) -> (r: Step)
    ensures
        forwards(r, x),
        r.news == news,
{
    if x.traffic.valid {
        Step { stage: Some(Stage::KeepingRequest(x)), act: Act::KeepRequest, news, done: None }
    } else {
        send(x, news)
    }
}

impl<W> Server<W> {
    /// Begins an exchange whose request may be held back until `sender` is told how it goes on.
    pub fn start(&mut self, x: Exchange, sender: W) -> (r: Step)
        requires
            old(self).wf(),
        ensures
            final(self).wf(),
            *final(self) == (Server { state: final(self).state, ..*old(self) }),
            starts(old(self).state@, final(self).state@, x, sender, r),
    {
        if x.traffic.valid && rules::pauses_request(&x.action) {
            let notices: Notices = self.hold_request(&x, sender);
            Step {
                stage: Some(Stage::RequestHeld(x)),
                act: Act::Wait,
                news: news_of_both(notices),
                done: None,
            }
        } else {
            forward(x, Vec::new())
        }
    }

    /// Takes in the response of a destination, of which a rule takes `action`.
    pub fn receive(
        &mut self,
        traffic: Traffic,
        incoming: Incoming,
        mime_matches: bool,
        action: &Option<RuleAction>,
    ) -> (r: Step)
        requires
            old(self).wf(),
            headers::header_fields(incoming.headers).dom().len() <= headers::NAMES_MAX,
        ensures
            *final(self) == *old(self),
            receives(
                old(self).state@,
                final(self).state@,
                traffic@,
                incoming,
                mime_matches,
                *action,
                r,
            ),
    {
        match self.begin_response(traffic, incoming, mime_matches, action) {
            Responding::Hold(y) => {
                if y.traffic.valid {
                    quiet(Some(Stage::Reading(y)), Act::ReadBody)
                } else {
                    quiet(None, Act::Respond(y.response))
                }
            },
            Responding::Pass(y) => {
                if y.traffic.valid {
                    quiet(Some(Stage::KeepingResponse(y)), Act::KeepResponse)
                } else {
                    quiet(None, Act::Respond(y.response))
                }
            },
        }
    }

    fn hold(&mut self, y: Answering, body: Vec<u8>, sender: W) -> (r: Step)
        requires
            old(self).wf(),
            y.traffic@.valid,
        ensures
            final(self).wf(),
            *final(self) == (Server { state: final(self).state, ..*old(self) }),
            holds(old(self).state@, final(self).state@, y, body@, sender, r),
    {
        let notices: Notices = self.hold_response(&y.traffic, sender);
        Step {
            stage: Some(Stage::ResponseHeld(y, body)),
            act: Act::Wait,
            news: news_of_both(notices),
            done: None,
        }
    }

    /// Takes in what an exchange has waited for. Where traffic is held back, `sender` is told how
    /// it goes on.
    pub fn step(&mut self, stage: Stage, event: Event, sender: W) -> (r: Step)
        requires
            old(self).wf(),
            awaits(stage, event),
            is_bounded(event),
        ensures
            final(self).wf(),
            *final(self) == (Server { state: final(self).state, ..*old(self) }),
            steps(old(self).state@, final(self).state@, stage, event, sender, r),
    {
        match (stage, event) {
            (Stage::RequestHeld(x), Event::Resolved(resolution)) => {
                match self.resume_request(x, resolution) {
                    Ok((y, notice)) => forward(y, news_of(notice)),
                    Err(res) => quiet(None, Act::Respond(res)),
                }
            },
            (Stage::KeepingRequest(x), Event::Kept(kept)) => {
                match self.keep_request(x, kept) {
                    Ok(y) => send(y, Vec::new()),
                    Err(failure) => give_up(failure),
                }
            },
            (Stage::Sending(x), Event::Answered(start, result, mime_matches)) => {
                let mut traffic: Traffic = x.traffic;
                traffic.set_start_time(start);
                match result {
                    Ok(incoming) => self.receive(traffic, incoming, mime_matches, &x.action),
                    Err(error) => give_up(self.internal_server_error(error, traffic)),
                }
            },
            (Stage::Reading(y), Event::Read(read)) => {
                match read {
                    None => quiet(None, Act::Respond(exchange::buffer_failed())),
                    Some(body) => if y.traffic.valid {
                        quiet(Some(Stage::KeepingBuffered(y, body)), Act::KeepResponse)
                    } else {
                        quiet(None, Act::Respond(with_body(y.response, body)))
                    },
                }
            },
            (Stage::KeepingBuffered(y, body), Event::Kept(kept)) => {
                let mut y: Answering = y;
                if !y.traffic.valid {
                    return quiet(None, Act::Respond(with_body(y.response, body)));
                }
                exchange::keep_buffered(&mut y.traffic, &kept, body.len() as u64);
                self.hold(y, body, sender)
            },
            (Stage::ResponseHeld(y, body), Event::Resolved(resolution)) => {
                let res: Response = exchange::resume_response(y.response, body, resolution);
                quiet(None, Act::Respond(res))
            },
            (Stage::KeepingResponse(y), Event::Kept(kept)) => {
                match self.pass_response(y, kept) {
                    Ok((res, notice)) => Step {
                        stage: None,
                        act: Act::Respond(res),
                        news: news_of(notice),
                        done: None,
                    },
                    Err(failure) => give_up(failure),
                }
            },
            _ => quiet(None, Act::Wait),
        }
    }
}

/// How many steps an exchange is from its end, at most.
pub open spec fn rank(stage: Stage) -> nat {
    match stage {
        Stage::RequestHeld(_) => 6,
        Stage::KeepingRequest(_) => 5,
        Stage::Sending(_) => 4,
        Stage::Reading(_) => 3,
        Stage::KeepingBuffered(..) => 2,
        Stage::KeepingResponse(_) => 2,
        Stage::ResponseHeld(..) => 1,
    }
}

/// Every exchange comes to its end: with each step it comes nearer to it, and the client is
/// answered once, in the last step.
pub proof fn law_exchanges_come_to_an_end<W>(
    old: Store<W>,
    new: Store<W>,
    stage: Stage,
    event: Event,
    sender: W,
    step: Step,
)
    requires
        steps(old, new, stage, event, sender, step),
    ensures
        step.stage is None <==> step.act is Respond,
        step.stage matches Some(next) ==> rank(next) < rank(stage),
{
}

/// The course of an exchange touches neither the rules nor the WebSockets, and it takes no record
/// away: it adds one at most.
pub proof fn law_exchanges_only_add<W>(
    old: Store<W>,
    new: Store<W>,
    stage: Stage,
    event: Event,
    sender: W,
    step: Step,
)
    requires
        steps(old, new, stage, event, sender, step),
    ensures
        new == (Store { records: new.records, pending: new.pending, ..old }),
        old.records.len() <= new.records.len() <= old.records.len() + 1,
        forall|gid: usize| #[trigger]
            old.pending.contains_key(gid) ==> new.pending.contains_key(gid),
{
    match (carried(step), answer_of(step)) {
        (Some(x), _) => {
            state::lemma_place_in_range(old.records, x.traffic@.gid);
        },
        (_, Some(y)) => {
            state::lemma_place_in_range(old.records, y.traffic@.gid);
        },
        _ => {},
    }
}

/// The record of an exchange as it stands.
pub open spec fn record_of(stage: Stage) -> Record {
    match stage {
        Stage::RequestHeld(x) | Stage::KeepingRequest(x) | Stage::Sending(x) => x.traffic@,
        Stage::Reading(y)
        | Stage::KeepingBuffered(y, _)
        | Stage::ResponseHeld(y, _)
        | Stage::KeepingResponse(y) => y.traffic@,
    }
}

/// An exchange stays the same one from its beginning to its end, and one that the filters have
/// turned down stays turned down.
pub proof fn law_exchanges_stay_themselves<W>(
    old: Store<W>,
    new: Store<W>,
    stage: Stage,
    event: Event,
    sender: W,
    step: Step,
)
    requires
        steps(old, new, stage, event, sender, step),
    ensures
        step.stage matches Some(next) ==> {
            &&& record_of(next).gid == record_of(stage).gid
            &&& record_of(next).uri == record_of(stage).uri
            &&& record_of(next).method == record_of(stage).method
            &&& record_of(next).valid ==> record_of(stage).valid
        },
{
}

/// A request that no rule holds back reaches the destination with every header field that the
/// client gave it, but for those that concern the connection to the client, and with the body of
/// the client.
pub proof fn law_unheld_requests_go_out_unchanged<W>(
    old: Store<W>,
    new: Store<W>,
    x: Exchange,
    record: Record,
    fields: headers::Fields,
    kept: Kept,
    sender: W,
    first: Step,
    second: Step,
)
    requires
        !rules::holds_request(x.action),
        exchange::under_way(x, record, fields, x.action),
        starts(old, new, x, sender, first),
        !(kept is Failed),
        first.stage matches Some(Stage::KeepingRequest(y)) ==> steps(
            old,
            new,
            Stage::KeepingRequest(y),
            Event::Kept(kept),
            sender,
            second,
        ),
        !(first.stage is Some && first.stage->0 is KeepingRequest) ==> second == first,
    ensures
        second.act matches Act::Send(out) && out.body is None && headers::lists(
            headers::passed_on(fields, headers::Leg::Http),
            headers::listed(out.headers@),
        ),
{
}

/// A response that no rule holds back reaches the client with the status of the destination, with
/// the last value of each of its header fields, and with the body of the destination.
pub proof fn law_unheld_responses_come_through<W>(
    old: Store<W>,
    new: Store<W>,
    y: Answering,
    record: Record,
    incoming: Incoming,
    mime_matches: bool,
    kept: Kept,
    sender: W,
    step: Step,
)
    requires
        exchange::answers(y, record, incoming, mime_matches),
        !(kept is Failed),
        steps(old, new, Stage::KeepingResponse(y), Event::Kept(kept), sender, step),
    ensures
        ends(
            step,
            Reply {
                status: incoming.status,
                fields: headers::last_values(headers::header_fields(incoming.headers)),
                content: Content::Destination,
            },
        ),
{
}

/// Nothing of an exchange that the filters have turned down is recorded when it begins, whatever
/// the rules say.
pub proof fn law_filtered_starts_without_a_trace<W>(
    old: Store<W>,
    new: Store<W>,
    x: Exchange,
    sender: W,
    step: Step,
)
    requires
        !x.traffic@.valid,
        starts(old, new, x, sender, step),
    ensures
        new == old,
        step.news@.len() == 0,
        sends(step, x),
{
}

/// Nothing of an exchange that the filters have turned down is recorded, whatever the rules say and
/// however it goes on, and nothing is told of it.
pub proof fn law_filtered_leaves_no_trace<W>(
    old: Store<W>,
    new: Store<W>,
    stage: Stage,
    event: Event,
    sender: W,
    step: Step,
)
    requires
        !record_of(stage).valid,
        state::place_of(old.records, record_of(stage).gid) is None,
        steps(old, new, stage, event, sender, step),
    ensures
        new == old,
        step.news@.len() == 0,
{
    assert(state::head_views(step.news@).len() == step.news@.len());
}

/// Where a filter turns down the media type of a response, nothing is recorded of the exchange, and
/// the response reaches the client as it came, whatever the rules say.
pub proof fn law_filtered_responses_come_through<W>(
    old: Store<W>,
    new: Store<W>,
    record: Record,
    incoming: Incoming,
    action: Option<RuleAction>,
    step: Step,
)
    requires
        receives(old, new, record, incoming, false, action, step),
    ensures
        new == old,
        step.news@.len() == 0,
        ends(
            step,
            Reply {
                status: incoming.status,
                fields: headers::last_values(headers::header_fields(incoming.headers)),
                content: Content::Destination,
            },
        ),
{
}

/// An exchange that is held back and not let go on ends at once: the client is told so and gets
/// nothing of what was held back, nothing goes out to the destination, and nothing more is recorded
/// or announced.
pub proof fn law_cancelled_exchanges_end<W>(
    old: Store<W>,
    new: Store<W>,
    stage: Stage,
    resolution: Option<PendingResolution>,
    sender: W,
    step: Step,
    name: Seq<char>,
)
    requires
        resolution is None || resolution == Some(PendingResolution::Cancel),
        steps(old, new, stage, Event::Resolved(resolution), sender, step),
    ensures
        step.stage is None,
        step.act matches Act::Respond(res) && res@.status == 504 && res@.content == Content::Text(
            "Rule: cancelled or timed out"@,
        ) && (res@.fields.contains_key(name) ==> name == "content-length"@),
        new == old,
        step.news@.len() == 0,
        step.done is None,
{
}

/// An exchange that a rule holds back, and that the filters let pass, begins by waiting: it is
/// recorded behind all others and held back as a request, and nothing goes out. Every other
/// exchange goes on its way at once, and nothing of it is recorded yet.
pub proof fn law_exchanges_begin<W>(
    old: Store<W>,
    new: Store<W>,
    x: Exchange,
    sender: W,
    step: Step,
)
    requires
        starts(old, new, x, sender, step),
    ensures
        ({
            let held = x.traffic.valid && (x.action == Some(RuleAction::PauseToEditRequest)
                || x.action == Some(RuleAction::PauseToEditRequestAndResponse));
            &&& held ==> {
                &&& step.stage == Some(Stage::RequestHeld(x))
                &&& step.act is Wait
                &&& new.records == old.records.push(x.traffic@)
                &&& new.pending.contains_key(x.traffic.gid)
                &&& new.pending[x.traffic.gid].sender == sender
                &&& new.pending[x.traffic.gid].phase == state::PendingPhase::Request
                &&& step.news@.len() >= 1
            }
            &&& !held ==> {
                &&& new == old
                &&& step.news@.len() == 0
                &&& x.traffic.valid ==> step.stage == Some(Stage::KeepingRequest(x))
                    && step.act is KeepRequest
                &&& !x.traffic.valid ==> step.stage == Some(Stage::Sending(x)) && step.act is Send
            }
            &&& step.done is None
        }),
{
    assert(state::head_views(step.news@).len() == step.news@.len());
}

/// A request that was held back and is let go on goes on its way, as it was or as it was edited: to
/// its file where the filters let it pass, and else to its destination.
pub proof fn law_released_requests_go_on<W>(
    old: Store<W>,
    new: Store<W>,
    x: Exchange,
    modified: Option<ModifiedTraffic>,
    sender: W,
    step: Step,
)
    requires
        steps(
            old,
            new,
            Stage::RequestHeld(x),
            Event::Resolved(Some(PendingResolution::Continue(modified))),
            sender,
            step,
        ),
    ensures
        step.done is None,
        x.traffic.valid ==> step.act is KeepRequest,
        !x.traffic.valid ==> step.act is Send,
        step.stage matches Some(Stage::Sending(y)) ==> (step.act matches Act::Send(out)
            && exchange::goes_out_as(out, y)),
        new.pending == old.pending,
        modified is None ==> {
            &&& new == old
            &&& step.news@.len() == 0
            &&& x.traffic.valid ==> step.stage == Some(Stage::KeepingRequest(x))
            &&& !x.traffic.valid ==> step.stage == Some(Stage::Sending(x))
        },
        modified matches Some(m) ==> {
            let y = match step.stage {
                Some(Stage::KeepingRequest(y)) => y,
                Some(Stage::Sending(y)) => y,
                _ => x,
            };
            &&& step.stage == Some(Stage::KeepingRequest(y)) || step.stage == Some(
                Stage::Sending(y),
            )
            &&& y.body is Some <==> m.body is Some
            &&& y.body is Some ==> y.body->0@ == m.body->0@
            &&& headers::header_fields(y.headers) == headers::edited_fields(
                headers::header_fields(x.headers),
                m@,
            )
            &&& y.action == x.action
            &&& y.traffic.gid == x.traffic.gid
            &&& new == old.updated(y.traffic@)
        },
{
}

/// Once the file for the body of a request was made, or none was wanted, the request goes out, and
/// the file is recorded; where the file could not be made, the exchange is given up with an error
/// that tells it.
pub proof fn law_kept_requests_go_out<W>(
    old: Store<W>,
    new: Store<W>,
    x: Exchange,
    kept: Kept,
    sender: W,
    step: Step,
)
    requires
        steps(old, new, Stage::KeepingRequest(x), Event::Kept(kept), sender, step),
    ensures
        !(kept is Failed) ==> {
            &&& step.act is Send
            &&& new == old
            &&& step.news@.len() == 0
            &&& step.done is None
            &&& step.stage is Some && step.stage->0 is Sending && exchange::goes_out_as(
                step.act->Send_0,
                step.stage->0->Sending_0,
            )
            &&& step.stage matches Some(Stage::Sending(y)) && y.headers == x.headers && y.body
                == x.body && y.action == x.action && y.traffic@ == (Record {
                req_body_file: match kept {
                    Kept::At(path) => Some(path@),
                    _ => x.traffic@.req_body_file,
                },
                ..x.traffic@
            })
        },
        kept matches Kept::Failed(path) ==> {
            let record = Record {
                errors: x.traffic@.errors.push(
                    "Failed to create file '"@ + path@ + "' to store request body"@,
                ),
                ..x.traffic@
            };
            &&& step.stage is None
            &&& step.act matches Act::Respond(res) && res@.status == 500 && res@.content
                == Content::Empty
            &&& step.done == Some((x.traffic.gid, 0u64))
            &&& new.records == (if x.traffic.valid {
                old.records.push(record)
            } else {
                old.records
            })
        },
{
    match kept {
        Kept::Failed(path) => {
            exchange::law_file_errors_tell_the_path(path@);
        },
        _ => {},
    }
}

/// Where the destination cannot be reached, the client is told that the server has failed, and the
/// exchange is recorded with the error and with when it went out, where the filters let it pass.
pub proof fn law_unreached_destinations_are_recorded<W>(
    old: Store<W>,
    new: Store<W>,
    x: Exchange,
    start: i128,
    error: String,
    mime_matches: bool,
    sender: W,
    step: Step,
)
    requires
        steps(
            old,
            new,
            Stage::Sending(x),
            Event::Answered(start, Err(error), mime_matches),
            sender,
            step,
        ),
    ensures
        step.stage is None,
        step.act matches Act::Respond(res) && res@.status == 500 && res@.content == Content::Empty,
        step.done == Some((x.traffic.gid, 0u64)),
        new.records == (if x.traffic.valid {
            old.records.push(
                Record {
                    start_time: Some(start),
                    errors: x.traffic@.errors.push(error@),
                    ..x.traffic@
                },
            )
        } else {
            old.records
        }),
        new.pending == old.pending,
        step.news@.len() == (if x.traffic.valid {
            1int
        } else {
            0int
        }),
{
    assert(state::head_views(step.news@).len() == step.news@.len());
}

/// A response that a rule holds back is read whole first, one that none does is kept as it passes,
/// and one that the filters turn down reaches the client at once; in each case it is the response
/// of the destination, and when the request went out is recorded with it.
pub proof fn law_responses_are_taken_in<W>(
    old: Store<W>,
    new: Store<W>,
    x: Exchange,
    start: i128,
    incoming: Incoming,
    mime_matches: bool,
    sender: W,
    step: Step,
)
    requires
        steps(
            old,
            new,
            Stage::Sending(x),
            Event::Answered(start, Ok(incoming), mime_matches),
            sender,
            step,
        ),
    ensures
        ({
            let passes = x.traffic.valid && mime_matches;
            let held = x.action == Some(RuleAction::PauseToEditResponse) || x.action == Some(
                RuleAction::PauseToEditRequestAndResponse,
            );
            let sent = Record { start_time: Some(start), ..x.traffic@ };
            &&& new == old
            &&& step.news@.len() == 0
            &&& step.done is None
            &&& passes && held ==> step.act is ReadBody && (
            step.stage matches Some(Stage::Reading(y)) && y.traffic.start_time == Some(start)
                && y.traffic.status == Some(incoming.status) && y.traffic.valid
                && y.response@.status == incoming.status && exchange::answers(
                y,
                sent,
                incoming,
                mime_matches,
            ))
            &&& passes && !held ==> step.act is KeepResponse && (
            step.stage matches Some(Stage::KeepingResponse(y)) && y.traffic.start_time == Some(
                start,
            ) && y.traffic.status == Some(incoming.status) && y.traffic.valid
                && y.response@.status == incoming.status && exchange::answers(
                y,
                sent,
                incoming,
                mime_matches,
            ))
            &&& !passes ==> step.stage is None && (step.act matches Act::Respond(res)
                && res@.status == incoming.status && res@.content == Content::Destination
                && res@.fields == headers::last_values(headers::header_fields(incoming.headers)))
        }),
{
}

/// A body that could not be read is answered as what it is; one that was read is kept, unchanged,
/// and then held back with the response, which is recorded with the file and the length of the
/// body.
pub proof fn law_read_bodies_are_held_back<W>(
    old: Store<W>,
    new: Store<W>,
    y: Answering,
    body: Vec<u8>,
    kept: Kept,
    sender: W,
    unread: Step,
    read: Step,
    held: Step,
)
    requires
        y.traffic.valid,
        steps(old, old, Stage::Reading(y), Event::Read(None), sender, unread),
        steps(old, old, Stage::Reading(y), Event::Read(Some(body)), sender, read),
        steps(old, new, Stage::KeepingBuffered(y, body), Event::Kept(kept), sender, held),
    ensures
        unread.stage is None,
        unread.act matches Act::Respond(res) && res@.status == 504 && res@.content == Content::Text(
            "Failed to buffer response body"@,
        ),
        read.stage == Some(Stage::KeepingBuffered(y, body)),
        read.act is KeepResponse,
        held.act is Wait,
        held.stage matches Some(Stage::ResponseHeld(z, b)) && b@ == body@ && z.response
            == y.response && z.traffic@ == (Record {
            res_body_file: match kept {
                Kept::At(path) => Some(path@),
                _ => y.traffic@.res_body_file,
            },
            res_body_size: match kept {
                Kept::At(_) => Some(body@.len() as u64),
                _ => y.traffic@.res_body_size,
            },
            ..y.traffic@
        }),
        new.pending.contains_key(y.traffic.gid),
        new.pending[y.traffic.gid].sender == sender,
        new.pending[y.traffic.gid].phase == state::PendingPhase::Response,
{
}

/// A response that was held back and is let go on reaches the client with its own status: unedited
/// with its own fields and the body that was read, edited with the body of the edit.
pub proof fn law_released_responses_are_delivered<W>(
    old: Store<W>,
    new: Store<W>,
    y: Answering,
    body: Vec<u8>,
    modified: Option<ModifiedTraffic>,
    sender: W,
    step: Step,
)
    requires
        steps(
            old,
            new,
            Stage::ResponseHeld(y, body),
            Event::Resolved(Some(PendingResolution::Continue(modified))),
            sender,
            step,
        ),
    ensures
        step.stage is None,
        new == old,
        step.news@.len() == 0,
        step.act matches Act::Respond(res) && res@.status == y.response@.status && res@.content == (
        match modified {
            Some(m) => match m.body {
                Some(b) => Content::Bytes(b@),
                None => Content::Bytes(body@),
            },
            None => Content::Bytes(body@),
        }) && res@.fields == (match modified {
            Some(m) => headers::edited_fields(y.response@.fields, m@),
            None => y.response@.fields,
        }),
{
}

/// A response that passes through reaches the client as it is, and its exchange is recorded behind
/// all others, with the file of its body, and announced; where the file could not be made, the
/// exchange is given up with an error that tells it.
pub proof fn law_passed_responses_are_recorded<W>(
    old: Store<W>,
    new: Store<W>,
    y: Answering,
    kept: Kept,
    sender: W,
    step: Step,
)
    requires
        y.traffic.valid,
        steps(old, new, Stage::KeepingResponse(y), Event::Kept(kept), sender, step),
    ensures
        step.stage is None,
        step.news@.len() == 1,
        new.pending == old.pending,
        kept matches Kept::Failed(path) ==> {
            &&& step.act matches Act::Respond(res) && res@.status == 500 && res@.content
                == Content::Empty
            &&& step.done == Some((y.traffic.gid, 0u64))
            &&& new.records == old.records.push(
                Record {
                    errors: y.traffic@.errors.push(
                        "Failed to create file '"@ + path@ + "' to store response body"@,
                    ),
                    ..y.traffic@
                },
            )
        },
        !(kept is Failed) ==> {
            &&& step.act matches Act::Respond(res) && res@ == y.response@
            &&& step.done is None
            &&& new.records == old.records.push(
                Record {
                    res_body_file: match kept {
                        Kept::At(path) => Some(path@),
                        _ => y.traffic@.res_body_file,
                    },
                    ..y.traffic@
                },
            )
        },
{
    match kept {
        Kept::Failed(path) => {
            exchange::law_file_errors_tell_the_path(path@);
        },
        _ => {},
    }
    assert(state::head_views(step.news@).len() == step.news@.len());
}

/// When a request is held back, its exchange is announced twice under the number that it gets: that
/// it is there, and then that it waits.
pub proof fn law_waiting_requests_are_announced<W>(
    old: Store<W>,
    new: Store<W>,
    x: Exchange,
    sender: W,
    step: Step,
)
    requires
        old.records.len() < usize::MAX,
        state::place_of(old.records, x.traffic.gid) is None,
        x.traffic.valid,
        rules::holds_request(x.action),
        starts(old, new, x, sender, step),
    ensures
        step.news@.len() == 2,
        step.news@[0].id == old.records.len() + 1 && step.news@[1].id == old.records.len() + 1,
        step.news@[0].uri@ == x.traffic.uri@ && step.news@[1].uri@ == x.traffic.uri@,
        step.news@[0].method@ == x.traffic.method@ && step.news@[1].method@ == x.traffic.method@,
        !step.news@[0].pending && step.news@[1].pending,
{
    exchange::law_held_requests_are_recorded(old, x.traffic@, sender);
    let heads = state::head_views(step.news@);
    assert(heads.len() == step.news@.len());
    assert(heads[0] == step.news@[0]@ && heads[1] == step.news@[1]@);
}

/// When a response is held back, its exchange is announced twice under the number that it has: as
/// it is recorded, and then that it waits.
pub proof fn law_waiting_responses_are_announced<W>(
    old: Store<W>,
    new: Store<W>,
    y: Answering,
    body: Vec<u8>,
    kept: Kept,
    sender: W,
    step: Step,
)
    requires
        old.records.len() < usize::MAX,
        y.traffic.valid,
        steps(old, new, Stage::KeepingBuffered(y, body), Event::Kept(kept), sender, step),
    ensures
        step.news@.len() == 2,
        step.news@[0].id == step.news@[1].id,
        1 <= step.news@[0].id <= new.records.len(),
        new.records[step.news@[0].id - 1].gid == y.traffic.gid,
        step.news@[0].status == y.traffic.status && step.news@[1].status == y.traffic.status,
        step.news@[0].uri@ == y.traffic.uri@ && step.news@[1].uri@ == y.traffic.uri@,
        !step.news@[0].pending && step.news@[1].pending,
{
    let z = answer_of(step)->0;
    exchange::law_held_responses_are_recorded(old, z.traffic@, sender);
    let heads = state::head_views(step.news@);
    assert(heads.len() == step.news@.len());
    assert(heads[0] == step.news@[0]@ && heads[1] == step.news@[1]@);
}

/// An exchange whose response passes through is announced once, under the number that it gets, with
/// its status.
pub proof fn law_passed_responses_are_announced<W>(
    old: Store<W>,
    new: Store<W>,
    y: Answering,
    kept: Kept,
    sender: W,
    step: Step,
)
    requires
        old.records.len() < usize::MAX,
        y.traffic.valid,
        steps(old, new, Stage::KeepingResponse(y), Event::Kept(kept), sender, step),
    ensures
        step.news@.len() == 1,
        step.news@[0].id == old.records.len() + 1,
        step.news@[0].uri@ == y.traffic.uri@,
        step.news@[0].method@ == y.traffic.method@,
        step.news@[0].status == y.traffic.status,
        !step.news@[0].pending,
{
    let heads = state::head_views(step.news@);
    assert(heads.len() == step.news@.len());
    assert(heads[0] == step.news@[0]@);
}

/// Where the filters have turned an exchange down, a response that was read whole reaches the
/// client with its own status and fields and the body that was read.
pub proof fn law_filtered_bodies_are_delivered<W>(
    old: Store<W>,
    new: Store<W>,
    y: Answering,
    body: Vec<u8>,
    kept: Kept,
    sender: W,
    step: Step,
)
    requires
        !y.traffic.valid,
        steps(old, new, Stage::Reading(y), Event::Read(Some(body)), sender, step) || steps(
            old,
            new,
            Stage::KeepingBuffered(y, body),
            Event::Kept(kept),
            sender,
            step,
        ),
    ensures
        step.stage is None,
        step.act matches Act::Respond(res) && res@.status == y.response@.status && res@.fields
            == y.response@.fields && res@.content == Content::Bytes(body@),
        new == old,
        step.news@.len() == 0,
        step.done is None,
{
}

} // verus!
