//! What holds of the proxy as a whole.
use vstd::prelude::*;
use vstd::string::*;
use vstd::utf8::*;

use crate::edit::Edit;
use crate::exchange;
use crate::export;
use crate::export::{ExportFormat, ExportJob};
use crate::headers;
use crate::headers::{Fields, Leg};
use crate::launch;
use crate::message::Entry;
use crate::response;
use crate::response::Reply;
use crate::rules::Rule;
use crate::server;
use crate::server::{Goal, Handled, Server};
use crate::state;
use crate::state::{PendingEntry, PendingPhase, Store};
use crate::text;
use crate::traffic;
use crate::traffic::{Record, Traffic};

verus! {

broadcast use vstd::string::group_string_axioms;

/// An exchange that was added is read back under the next number, and every exchange before it
/// keeps its number.
pub proof fn law_added_is_read_back<W>(store: Store<W>, record: Record)
    requires
        record.valid,
    ensures
        store.added(record).records.len() == store.records.len() + 1,
        store.added(record).records[store.records.len() as int] == record,
        forall|i: int|
            0 <= i < store.records.len() ==> #[trigger] store.added(record).records[i]
                == store.records[i],
{
}

/// The record after all of some filters have been asked.
pub open spec fn checked_by(record: Record, verdicts: Seq<bool>) -> Record
    decreases verdicts.len(),
{
    if verdicts.len() == 0 {
        record
    } else {
        checked_by(record, verdicts.drop_last()).checked(verdicts.last())
    }
}

/// An exchange that a filter has turned down is not recorded when it is done, whatever the other
/// filters say.
pub proof fn law_filtered_is_not_added<W>(
    store: Store<W>,
    record: Record,
    verdicts: Seq<bool>,
    at: int,
)
    requires
        0 <= at < verdicts.len(),
        !verdicts[at],
    ensures
        !checked_by(record, verdicts).valid,
        store.added(checked_by(record, verdicts)) == store,
    decreases verdicts.len(),
{
    if at < verdicts.len() - 1 {
        law_filtered_is_not_added(store, record, verdicts.drop_last(), at);
    }
}

/// The order in which filters are asked does not matter.
pub proof fn law_filters_commute(record: Record, a: bool, b: bool)
    ensures
        record.checked(a).checked(b) == record.checked(b).checked(a),
        record.checked(a).checked(b) == record.checked(a && b),
{
}

/// Adding an exchange changes nothing but the exchanges.
pub proof fn law_adding_keeps_the_rest<W>(store: Store<W>, record: Record)
    ensures
        store.added(record) == (Store { records: store.added(record).records, ..store }),
        store.recorded(record) == (Store { records: store.recorded(record).records, ..store }),
        store.updated(record) == (Store { records: store.updated(record).records, ..store }),
{
}

proof fn lemma_place_under_update(records: Seq<Record>, record: Record, gid: usize)
    requires
        state::place_of(records, record.gid) is Some,
    ensures
        0 <= state::place_of(records, record.gid)->0 < records.len(),
        records[state::place_of(records, record.gid)->0].gid == record.gid,
        state::place_of(records.update(state::place_of(records, record.gid)->0, record), gid)
            == state::place_of(records, gid),
    decreases records.len(),
{
    let i = state::place_of(records, record.gid)->0;
    if records[0].gid == record.gid {
        assert(records.update(0, record).skip(1) =~= records.skip(1));
    } else {
        lemma_place_under_update(records.skip(1), record, gid);
        assert(records.update(i, record).skip(1) =~= records.skip(1).update(i - 1, record));
    }
}

/// An update puts the exchange in the place of the one with its `gid`, under the same number; every
/// other exchange stays as it is, and every exchange is found where it was found.
pub proof fn law_update_replaces_one<W>(store: Store<W>, record: Record, gid: usize)
    requires
        state::place_of(store.records, record.gid) is Some,
    ensures
        store.updated(record).records.len() == store.records.len(),
        ({
            let at = state::place_of(store.records, record.gid)->0;
            &&& 0 <= at < store.records.len()
            &&& store.updated(record).records[at] == record
            &&& forall|i: int|
                0 <= i < store.records.len() && i != at ==> #[trigger] store.updated(
                    record,
                ).records[i] == store.records[i]
        }),
        state::place_of(store.updated(record).records, gid) == state::place_of(store.records, gid),
{
    lemma_place_under_update(store.records, record, gid);
}

/// An update of an exchange that is not there changes nothing.
pub proof fn law_update_of_nothing<W>(store: Store<W>, record: Record)
    requires
        state::place_of(store.records, record.gid) is None,
    ensures
        store.updated(record) == store,
{
}

/// Updating twice is updating once with the later exchange.
pub proof fn law_last_update_wins<W>(store: Store<W>, first: Record, second: Record)
    requires
        first.gid == second.gid,
    ensures
        store.updated(first).updated(second) == store.updated(second),
{
    if state::place_of(store.records, first.gid) is Some {
        lemma_place_under_update(store.records, first, first.gid);
        let at = state::place_of(store.records, first.gid)->0;
        assert(store.records.update(at, first).update(at, second) =~= store.records.update(
            at,
            second,
        ));
    }
}

proof fn lemma_place_behind(records: Seq<Record>, record: Record, gid: usize)
    ensures
        state::place_of(records.push(record), gid) == (match state::place_of(records, gid) {
            Some(i) => Some(i),
            None => if record.gid == gid {
                Some(records.len() as int)
            } else {
                None
            },
        }),
    decreases records.len(),
{
    if records.len() == 0 {
        assert(records.push(record).skip(1) =~= Seq::empty());
        assert(state::place_of(records.push(record).skip(1), gid) is None);
        assert(records.push(record)[0] == record);
    } else {
        lemma_place_behind(records.skip(1), record, gid);
        assert(records.push(record).skip(1) =~= records.skip(1).push(record));
        assert(records.push(record)[0] == records[0]);
    }
}

/// An exchange with a `gid` of its own is found by it once it is recorded, and the others are found
/// where they were.
pub proof fn law_recorded_is_found<W>(store: Store<W>, record: Record, other: usize)
    requires
        state::place_of(store.records, record.gid) is None,
    ensures
        state::place_of(store.recorded(record).records, record.gid) == Some(
            store.records.len() as int,
        ),
        other != record.gid ==> state::place_of(store.recorded(record).records, other)
            == state::place_of(store.records, other),
{
    lemma_place_behind(store.records, record, record.gid);
    lemma_place_behind(store.records, record, other);
}

/// An exchange whose request and response are both held back is recorded once, as it is at the
/// response.
pub proof fn law_held_twice_is_recorded_once<W>(
    store: Store<W>,
    request: Record,
    response: Record,
    first: W,
    second: W,
)
    requires
        request.gid == response.gid,
        state::place_of(store.records, request.gid) is None,
    ensures
        exchange::response_held(
            store.recorded(request).held(
                request.gid,
                PendingEntry { sender: first, phase: PendingPhase::Request },
            ),
            response,
            second,
        ) == store.recorded(response).held(
            response.gid,
            PendingEntry { sender: second, phase: PendingPhase::Response },
        ),
{
    lemma_place_behind(store.records, request, request.gid);
    let one = PendingEntry { sender: first, phase: PendingPhase::Request };
    let two = PendingEntry { sender: second, phase: PendingPhase::Response };
    assert(store.records.push(request).update(store.records.len() as int, response)
        =~= store.records.push(response));
    assert(store.pending.insert(request.gid, one).insert(request.gid, two)
        =~= store.pending.insert(request.gid, two));
}

/// What is held back is held back until it is resolved, and then no longer; what was not held back
/// before leaves no trace.
pub proof fn law_resolving_undoes_holding<W>(
    store: Store<W>,
    gid: usize,
    entry: PendingEntry<W>,
    other: usize,
)
    requires
        other != gid,
    ensures
        store.held(gid, entry).pending.contains_key(gid),
        store.held(gid, entry).pending[gid] == entry,
        !store.held(gid, entry).pending.remove(gid).contains_key(gid),
        store.held(gid, entry).pending.contains_key(other) == store.pending.contains_key(other),
        !store.pending.contains_key(gid) ==> (Store {
            pending: store.held(gid, entry).pending.remove(gid),
            ..store.held(gid, entry)
        }) == store,
{
    if !store.pending.contains_key(gid) {
        assert(store.pending.insert(gid, entry).remove(gid) =~= store.pending);
    }
}

/// A rule that was added is taken out again by its place, and nothing else has changed.
pub proof fn law_removing_undoes_adding<W>(store: Store<W>, rule: Rule)
    ensures
        (Store {
            rules: store.rules.push(rule).remove(store.rules.len() as int),
            ..store
        }) == store,
{
    assert(store.rules.push(rule).remove(store.rules.len() as int) =~= store.rules);
}

/// An entry for a WebSocket comes behind those that it has; the other WebSockets and everything
/// else stay as they are.
pub proof fn law_sockets_only_grow<W>(store: Store<W>, id: usize, entry: Entry, other: usize)
    requires
        1 <= id <= store.sockets.len(),
        1 <= other <= store.sockets.len(),
    ensures
        store.noted(id, entry).sockets.len() == store.sockets.len(),
        store.noted(id, entry).sockets[id - 1] == store.sockets[id - 1].push(entry),
        other != id ==> store.noted(id, entry).sockets[other - 1] == store.sockets[other - 1],
        store.noted(id, entry) == (Store { sockets: store.noted(id, entry).sockets, ..store }),
{
}

/// Without the switch for it, nothing of the web interface is handed out.
pub proof fn law_web_is_off_by_default(
    req_uri: Seq<char>,
    method: Seq<char>,
    base: Option<Seq<char>>,
)
    ensures
        ({
            let goal = server::goal_of(req_uri, method, base, false);
            goal is Nowhere || goal is Certificate || goal is WebDisabled || goal is Forward
        }),
{
}

/// The web interface only reads: it takes no other method than GET.
pub proof fn law_web_only_reads(
    req_uri: Seq<char>,
    method: Seq<char>,
    base: Option<Seq<char>>,
    web: bool,
)
    requires
        method != "GET"@,
    ensures
        ({
            let goal = server::goal_of(req_uri, method, base, web);
            goal is Nowhere || goal is Certificate || goal is WebDisabled || goal is WebMethod
                || goal is Forward
        }),
{
}

/// A request with a host of its own is forwarded to the URI that it names, or answered here; the
/// URL to forward to plays no part in it.
pub proof fn law_named_host_is_kept(
    req_uri: Seq<char>,
    method: Seq<char>,
    base: Option<Seq<char>>,
    other: Option<Seq<char>>,
    web: bool,
)
    requires
        !text::begins_with(req_uri, "/"@),
    ensures
        server::goal_of(req_uri, method, base, web) == server::goal_of(
            req_uri,
            method,
            other,
            web,
        ),
        server::goal_of(req_uri, method, base, web) matches Goal::Forward(uri) ==> uri == req_uri,
{
}

/// A request without a host goes below the URL to forward to, with all that it holds.
pub proof fn law_reverse_proxy_appends(
    req_uri: Seq<char>,
    method: Seq<char>,
    base: Seq<char>,
    web: bool,
)
    requires
        text::begins_with(req_uri, "/"@),
        !text::begins_with(req_uri, "/__proxymore__"@),
    ensures
        server::goal_of(req_uri, method, Some(base), web) matches Goal::Forward(uri) ==> uri
            == base + req_uri,
        server::goal_of(req_uri, method, None, web) == Goal::Nowhere,
{
}

/// Whether a goal is a page, a feed or a listing of the web interface.
pub open spec fn is_web(goal: Goal) -> bool {
    ||| goal is WebIndex
    ||| goal is Traffics
    ||| goal is Websocket
    ||| goal is Export
    ||| goal is ExportOne
    ||| goal is WebCertificate
    ||| goal is WebUnknown
}

/// What the server has answered, or has begun to answer.
pub open spec fn begun_reply(handled: Handled) -> Option<Reply> {
    match handled {
        Handled::Respond(res) => Some(res@),
        Handled::Render(res, _) => Some(res@),
        Handled::RenderOne(res, _, _) => Some(res@),
        Handled::Forward(_) => None,
    }
}

/// Whatever the web interface answers, pages from elsewhere may read it.
pub proof fn law_web_answers_are_open<W>(server: Server<W>, handled: Handled, goal: Goal)
    requires
        is_web(goal),
        server.handles(handled, goal),
    ensures
        begun_reply(handled) matches Some(reply) && headers::values_at(
            reply.fields,
            "access-control-allow-origin"@,
        ) == seq![encode_utf8("*"@)],
{
    reveal_strlit("access-control-allow-origin");
    reveal_strlit("access-control-allow-methods");
    reveal_strlit("access-control-allow-headers");
    reveal_strlit("content-type");
    reveal_strlit("content-length");
    reveal_strlit("content-disposition");
    reveal_strlit("cache-control");
    let name = "access-control-allow-origin"@;
    assert(name.len() == 27);
    assert("access-control-allow-methods"@.len() == 28);
    assert("access-control-allow-headers"@.len() == 28);
    assert("content-type"@.len() == 12);
    assert("content-length"@.len() == 14);
    assert("content-disposition"@.len() == 19);
    assert("cache-control"@.len() == 13);
}

/// An edited body goes out without the length and the encoding of the body that it replaces.
pub proof fn law_edited_request_goes_out_clean(fields: Fields, edit: Edit, leg: Leg)
    requires
        edit.body is Some,
    ensures
        !headers::passed_on(headers::edited_fields(fields, edit), leg).contains_key(
            "content-length"@,
        ),
        !headers::passed_on(headers::edited_fields(fields, edit), leg).contains_key(
            "content-encoding"@,
        ),
{
}

/// A response that goes on unedited reaches the client as it was read; an edit of nothing is none.
pub proof fn law_empty_edit_keeps_the_response(reply: Reply, body: Seq<u8>)
    ensures
        exchange::edited_reply(reply, body, Edit { headers: None, body: None }) == reply.content(
            response::Content::Bytes(body),
        ),
{
}

/// The word that names a format.
pub open spec fn word_of(format: ExportFormat) -> Seq<char> {
    match format {
        ExportFormat::Markdown => "markdown"@,
        ExportFormat::Har => "har"@,
        ExportFormat::Curl => "curl"@,
        ExportFormat::Json => "json"@,
        ExportFormat::Heads => ""@,
    }
}

/// Every format has one word that names it, and no other word does.
pub proof fn law_every_format_has_one_word(format: ExportFormat, word: Seq<char>)
    ensures
        export::format_of(word) == Some(format) <==> word == word_of(format),
{
    reveal_strlit("markdown");
    reveal_strlit("har");
    reveal_strlit("curl");
    reveal_strlit("json");
    reveal_strlit("");
    assert("markdown"@.len() == 8);
    assert("har"@.len() == 3);
    assert("curl"@.len() == 4 && "curl"@[0] == 'c');
    assert("json"@.len() == 4 && "json"@[0] == 'j');
    assert(""@.len() == 0);
}

/// The media type of every format can stand in a header: a rendering is always answered.
pub proof fn law_renderings_are_answered(reply: Reply, data: Seq<char>, format: ExportFormat)
    ensures
        server::rendered_reply(reply, Ok((data, export::media_type(format)))) == reply.text(
            data,
        ).fresh(export::media_type(format)),
{
    reveal_strlit("text/markdown; charset=UTF-8");
    reveal_strlit("text/plain; charset=UTF-8");
    reveal_strlit("application/json; charset=UTF-8");
    headers::lemma_plain_value(export::media_type(format));
}

/// Asking for nothing is asking for the terminal interface, and without a terminal there is none.
pub proof fn law_terminal_interface_is_the_default(terminal: bool)
    ensures
        launch::shows_tui(terminal, false, false, false) == launch::shows_tui(
            terminal,
            true,
            false,
            false,
        ),
        !launch::shows_tui(false, true, false, false),
{
}

pub(crate) proof fn lemma_leading_zero(s: Seq<char>)
    requires
        text::digits_value(s) is Some,
    ensures
        text::digits_value(seq!['0'] + s) == text::digits_value(s),
    decreases s.len(),
{
    let t = seq!['0'] + s;
    if s.len() == 0 {
        assert(t.drop_last() =~= Seq::empty());
        assert(text::digits_value(t.drop_last()) == Some(0nat));
        assert(t.last() == '0');
    } else {
        assert(t.drop_last() =~= seq!['0'] + s.drop_last());
        lemma_leading_zero(s.drop_last());
    }
}

proof fn lemma_leading_zeros(zeros: nat, s: Seq<char>)
    requires
        text::digits_value(s) is Some,
    ensures
        text::digits_value(Seq::new(zeros, |i: int| '0') + s) == text::digits_value(s),
    decreases zeros,
{
    if zeros == 0 {
        assert(Seq::new(0, |i: int| '0') + s =~= s);
    } else {
        let fewer = Seq::new((zeros - 1) as nat, |i: int| '0');
        lemma_leading_zeros((zeros - 1) as nat, s);
        lemma_leading_zero(fewer + s);
        assert(Seq::new(zeros, |i: int| '0') + s =~= seq!['0'] + (fewer + s));
    }
}

proof fn lemma_padded(n: nat)
    ensures
        text::padded(n, 5).len() >= 5,
        forall|i: int|
            0 <= i < text::padded(n, 5).len() ==> '0' <= #[trigger] text::padded(n, 5)[i] <= '9',
        text::digits_value(text::padded(n, 5)) == Some(n),
{
    text::lemma_decimal(n);
    let s = text::decimal(n);
    if s.len() < 5 {
        lemma_leading_zeros((5 - s.len()) as nat, s);
    }
}

proof fn lemma_numbers_differ(a: nat, b: nat, x: Seq<char>, y: Seq<char>)
    requires
        x.len() > 0,
        y.len() > 0,
        x[0] == '-',
        y[0] == '-',
        text::padded(a, 5) + x == text::padded(b, 5) + y,
    ensures
        a == b,
        x == y,
{
    lemma_padded(a);
    lemma_padded(b);
    let p = text::padded(a, 5);
    let q = text::padded(b, 5);
    let s = p + x;
    assert(s[p.len() as int] == '-');
    assert(s == q + y);
    assert(s[q.len() as int] == '-');
    if p.len() < q.len() {
        assert(s[p.len() as int] == q[p.len() as int]);
    }
    if q.len() < p.len() {
        assert(s[q.len() as int] == p[q.len() as int]);
    }
    assert(p =~= s.take(p.len() as int));
    assert(q =~= s.take(p.len() as int));
    assert(x =~= s.skip(p.len() as int));
    assert(y =~= s.skip(p.len() as int));
}

/// No two exchanges keep their bodies in the same file, and none keeps its request where it keeps
/// its response, whatever the extensions are.
pub proof fn law_bodies_have_files_of_their_own(
    a: usize,
    b: usize,
    ext: Seq<char>,
    other_ext: Seq<char>,
    encoding_ext: Seq<char>,
    other_encoding_ext: Seq<char>,
)
    ensures
        traffic::req_file_name(a, ext) != traffic::res_file_name(b, other_ext, encoding_ext),
        a != b ==> traffic::req_file_name(a, ext) != traffic::req_file_name(b, other_ext),
        a != b ==> traffic::res_file_name(a, ext, encoding_ext) != traffic::res_file_name(
            b,
            other_ext,
            other_encoding_ext,
        ),
{
    reveal_strlit("-req");
    reveal_strlit("-res");
    let req = "-req"@ + ext;
    let other_req = "-req"@ + other_ext;
    let res = "-res"@ + ext + encoding_ext;
    let other_res = "-res"@ + other_ext + encoding_ext;
    let third_res = "-res"@ + other_ext + other_encoding_ext;
    assert(traffic::req_file_name(a, ext) =~= text::padded(a as nat, 5) + req);
    assert(traffic::req_file_name(b, other_ext) =~= text::padded(b as nat, 5) + other_req);
    assert(traffic::res_file_name(a, ext, encoding_ext) =~= text::padded(a as nat, 5) + res);
    assert(traffic::res_file_name(b, other_ext, encoding_ext) =~= text::padded(b as nat, 5)
        + other_res);
    assert(traffic::res_file_name(b, other_ext, other_encoding_ext) =~= text::padded(b as nat, 5)
        + third_res);
    if text::padded(a as nat, 5) + req == text::padded(b as nat, 5) + other_res {
        lemma_numbers_differ(a as nat, b as nat, req, other_res);
        assert(req[3] == 'q');
        assert(other_res[3] == 's');
    }
    if text::padded(a as nat, 5) + req == text::padded(b as nat, 5) + other_req {
        lemma_numbers_differ(a as nat, b as nat, req, other_req);
    }
    if text::padded(a as nat, 5) + res == text::padded(b as nat, 5) + third_res {
        lemma_numbers_differ(a as nat, b as nat, res, third_res);
    }
}

} // verus!
