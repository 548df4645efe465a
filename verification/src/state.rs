//! The state of the proxy: recorded exchanges, rules, what is held back, WebSockets.
use vstd::prelude::*;
use vstd::string::*;

use indexmap::IndexMap;
use std::collections::hash_map::RandomState;
use std::collections::HashMap;

use crate::edit::ModifiedTraffic;
use crate::launch::PrintMode;
use crate::message;
use crate::message::{Entry, WebsocketData, WebsocketMessage, WsMessage};
use crate::rules;
use crate::rules::{Rule, RuleAction};
use crate::tables;
use crate::text;
use crate::traffic::{Head, Record, Traffic, TrafficHead};

verus! {

broadcast use {
    vstd::string::group_string_axioms,
    vstd::std_specs::hash::group_hash_axioms,
};

/// The side of an exchange that is held back.
#[derive(Clone, Copy, Debug, PartialEq, Eq, Structural)]
pub enum PendingPhase {
    Request,
    Response,
}

impl PendingPhase {
    /// The word by which a user knows the phase.
    pub open spec fn word(self) -> Seq<char> {
        match self {
            PendingPhase::Request => "Request"@,
            PendingPhase::Response => "Response"@,
        }
    }

    /// The phase's word.
    pub fn to_string(&self) -> (r: String)
        ensures
            r@ == self.word(),
    {
        match self {
            PendingPhase::Request => "Request".to_owned(),
            PendingPhase::Response => "Response".to_owned(),
        }
    }
}

/// What becomes of traffic that was held back: it goes on, edited or not, or it is given up.
#[derive(Debug)]
pub enum PendingResolution {
    Continue(Option<ModifiedTraffic>),
    Cancel,
}

/// Traffic that is held back, with the channel to the one who waits for it.
#[derive(Debug)]
pub struct PendingEntry<W> {
    pub sender: W,
    pub phase: PendingPhase,
}

/// A resolution on its way: to whom, what, and the summary to announce beside it.
#[derive(Debug)]
pub struct Resolved<W> {
    pub sender: W,
    pub resolution: PendingResolution,
    pub notice: Option<TrafficHead>,
}

/// What is written to the console of an exchange that is done.
#[derive(Debug)]
pub enum Printing {
    Nothing,
    Oneline(Traffic),
    Markdown(Traffic),
}

/// An exchange on one line, as it is written to the console: behind a hash sign.
pub fn console_line(rendered: &str) -> (r: String)
    ensures
        r@ == "# "@ + rendered@,
{
    text::chain("# ", rendered)
}

impl Printing {
    /// What is written to the console, given the exchange as it was rendered.
    pub open spec fn written(self, rendered: Seq<char>) -> Option<Seq<char>> {
        match self {
            Printing::Nothing => None,
            Printing::Oneline(_) => Some("# "@ + rendered),
            Printing::Markdown(_) => Some(rendered),
        }
    }

    /// What is written to the console, given the exchange as it was rendered: on one line behind a
    /// hash sign, in Markdown as it is, or nothing.
    pub fn output(&self, rendered: &str) -> (r: Option<String>)
        ensures
            match self {
                Printing::Nothing => r is None,
                Printing::Oneline(_) => r matches Some(line) && line@ == "# "@ + rendered@,
                Printing::Markdown(_) => r matches Some(page) && page@ == rendered@,
            },
            text::optional_text(r) == self.written(rendered@),
    {
        match self {
            Printing::Nothing => None,
            Printing::Oneline(_) => Some(console_line(rendered)),
            Printing::Markdown(_) => Some(rendered.to_owned()),
        }
    }
}

/// An exchange that is done: the summary to announce, and what is written to the console.
#[derive(Debug)]
pub struct Finished {
    pub head: TrafficHead,
    pub printing: Printing,
}

/// The state of the proxy. `W` is the channel to one who waits for traffic that is held back.
pub struct State<W> {
    print_mode: PrintMode,
    traffics: IndexMap<usize, Traffic, RandomState>,
    rules: Vec<Rule>,
    pending: HashMap<usize, PendingEntry<W>>,
    websockets: IndexMap<usize, Vec<WebsocketMessage>, RandomState>,
}

/// What the state holds. Exchanges and WebSockets are numbered from one, in the order in which
/// they came: the exchange at place `i` has the number `i + 1`.
#[verifier::ext_equal]
#[verifier::reject_recursive_types(W)]
pub struct Store<W> {
    pub print_mode: PrintMode,
    pub records: Seq<Record>,
    pub rules: Seq<Rule>,
    pub pending: Map<usize, PendingEntry<W>>,
    pub sockets: Seq<Seq<Entry>>,
}

/// The place of the first record with a `gid`.
pub open spec fn place_of(records: Seq<Record>, gid: usize) -> Option<int>
    decreases records.len(),
{
    if records.len() == 0 {
        None
    } else if records[0].gid == gid {
        Some(0)
    } else {
        match place_of(records.skip(1), gid) {
            Some(i) => Some(i + 1),
            None => None,
        }
    }
}

/// The place that is found is the first one with the `gid`.
pub proof fn law_place_is_the_first(records: Seq<Record>, gid: usize, at: int)
    requires
        0 <= at < records.len(),
        records[at].gid == gid,
        forall|j: int| 0 <= j < at ==> (#[trigger] records[j]).gid != gid,
    ensures
        place_of(records, gid) == Some(at),
    decreases at,
{
    if at > 0 {
        assert(records[0].gid != gid);
        assert forall|j: int| 0 <= j < at - 1 implies (#[trigger] records.skip(1)[j]).gid
            != gid by {
            assert(records[j + 1].gid != gid);
        }
        law_place_is_the_first(records.skip(1), gid, at - 1);
    }
}

proof fn lemma_no_place(records: Seq<Record>, gid: usize)
    requires
        forall|j: int| 0 <= j < records.len() ==> (#[trigger] records[j]).gid != gid,
    ensures
        place_of(records, gid) is None,
    decreases records.len(),
{
    if records.len() > 0 {
        assert(records[0].gid != gid);
        assert forall|j: int| 0 <= j < records.skip(1).len() implies (
        #[trigger] records.skip(1)[j]).gid != gid by {
            assert(records[j + 1].gid != gid);
        }
        lemma_no_place(records.skip(1), gid);
    }
}

/// A place that is found is one of the places, and the record there has the `gid`.
pub proof fn lemma_place_in_range(records: Seq<Record>, gid: usize)
    ensures
        place_of(records, gid) matches Some(i) ==> 0 <= i < records.len() && records[i].gid == gid,
    decreases records.len(),
{
    if records.len() > 0 {
        lemma_place_in_range(records.skip(1), gid);
    }
}

/// The summary that tells of the first record with a `gid` that it is held back, or no longer.
pub open spec fn pending_notice(records: Seq<Record>, gid: usize, pending: bool) -> Option<Head> {
    match place_of(records, gid) {
        Some(i) => Some(Head { pending, ..records[i].head((i + 1) as usize) }),
        None => None,
    }
}

/// The content of an optional summary.
pub open spec fn notice_view(notice: Option<TrafficHead>) -> Option<Head> {
    match notice {
        Some(head) => Some(head@),
        None => None,
    }
}

/// The contents of a list of summaries.
pub open spec fn head_views(heads: Seq<TrafficHead>) -> Seq<Head> {
    Seq::new(heads.len(), |i: int| heads[i]@)
}

/// The summaries of all records, in order.
pub open spec fn all_heads(records: Seq<Record>) -> Seq<Head> {
    Seq::new(records.len(), |i: int| records[i].head((i + 1) as usize))
}

/// What is written to the console of a record that is done.
pub open spec fn prints(printing: Printing, mode: PrintMode, record: Record) -> bool {
    match printing {
        Printing::Nothing => mode == PrintMode::Nothing,
        Printing::Oneline(t) => mode == PrintMode::Oneline && t@ == record,
        Printing::Markdown(t) => mode == PrintMode::Markdown && t@ == record,
    }
}

/// The contents of a list of exchanges.
pub open spec fn record_views(list: Seq<Traffic>) -> Seq<Record> {
    Seq::new(list.len(), |i: int| list[i]@)
}

/// What is announced of a WebSocket: an entry under its number, where there is such a WebSocket.
pub open spec fn announces(
    news: Option<(usize, WebsocketMessage)>,
    id: usize,
    entry: Entry,
    known: bool,
) -> bool {
    match news {
        Some((n, m)) => known && n == id && m@ == entry,
        None => !known,
    }
}

/// Whether a list tells everyone who waited, and nobody twice, that the exchange goes on unedited.
pub open spec fn releases<W>(
    pending: Map<usize, PendingEntry<W>>,
    sent: Seq<(usize, Resolved<W>)>,
) -> bool {
    &&& forall|i: int|
        0 <= i < sent.len() ==> {
            &&& pending.contains_key((#[trigger] sent[i]).0)
            &&& sent[i].1.sender == pending[sent[i].0].sender
            &&& sent[i].1.resolution == PendingResolution::Continue(None)
            &&& sent[i].1.notice is None
        }
    &&& forall|gid: usize| #[trigger]
        pending.contains_key(gid) ==> exists|i: int|
            0 <= i < sent.len() && (#[trigger] sent[i]).0 == gid
    &&& forall|i: int, j: int|
        0 <= i < j < sent.len() ==> (#[trigger] sent[i]).0 != (#[trigger] sent[j]).0
}

/// Whether a resolution goes to the one who waits for an exchange, if anyone does, with the summary
/// that tells that it no longer waits.
pub open spec fn sends_on<W>(
    store: Store<W>,
    gid: usize,
    resolution: PendingResolution,
    sent: Option<Resolved<W>>,
) -> bool {
    match sent {
        Some(sent) => {
            &&& store.pending.contains_key(gid)
            &&& sent.sender == store.pending[gid].sender
            &&& sent.resolution == resolution
            &&& notice_view(sent.notice) == pending_notice(store.records, gid, false)
        },
        None => !store.pending.contains_key(gid),
    }
}

impl<W> Store<W> {
    /// The state in which the proxy starts.
    pub open spec fn start(print_mode: PrintMode) -> Store<W> {
        Store {
            print_mode,
            records: Seq::empty(),
            rules: Seq::empty(),
            pending: Map::empty(),
            sockets: Seq::empty(),
        }
    }

    /// The state with one more record.
    pub open spec fn recorded(self, record: Record) -> Store<W> {
        Store { records: self.records.push(record), ..self }
    }

    /// The state after an exchange was added: an exchange that the filters do not let pass leaves
    /// it as it was.
    pub open spec fn added(self, record: Record) -> Store<W> {
        if record.valid {
            self.recorded(record)
        } else {
            self
        }
    }

    /// The state after the first record with the `gid` of `record` was replaced by it.
    pub open spec fn updated(self, record: Record) -> Store<W> {
        match place_of(self.records, record.gid) {
            Some(i) => Store { records: self.records.update(i, record), ..self },
            None => self,
        }
    }

    /// The state after an exchange was held back.
    pub open spec fn held(self, gid: usize, entry: PendingEntry<W>) -> Store<W> {
        Store { pending: self.pending.insert(gid, entry), ..self }
    }

    /// The state with one more rule, behind the others.
    pub open spec fn ruled(self, rule: Rule) -> Store<W> {
        Store { rules: self.rules.push(rule), ..self }
    }

    /// The state without the rule at a place; a place behind the last rule changes nothing.
    pub open spec fn unruled(self, index: int) -> Store<W> {
        if 0 <= index < self.rules.len() {
            Store { rules: self.rules.remove(index), ..self }
        } else {
            self
        }
    }

    /// The state after the wait for an exchange was ended.
    pub open spec fn resolved(self, gid: usize) -> Store<W> {
        Store { pending: self.pending.remove(gid), ..self }
    }

    /// The side of an exchange that is held back.
    pub open spec fn phase_of(self, gid: usize) -> Option<PendingPhase> {
        if self.pending.contains_key(gid) {
            Some(self.pending[gid].phase)
        } else {
            None
        }
    }

    /// The state with one more WebSocket.
    pub open spec fn opened(self) -> Store<W> {
        Store { sockets: self.sockets.push(Seq::empty()), ..self }
    }

    /// The state after the first exchange with a `gid` was done.
    pub open spec fn finished(self, gid: usize, raw_size: u64) -> Store<W> {
        match place_of(self.records, gid) {
            Some(i) => self.updated(Record { res_body_size: Some(raw_size), ..self.records[i] }),
            None => self,
        }
    }

    /// The state after one more entry for a WebSocket.
    pub open spec fn noted(self, id: usize, entry: Entry) -> Store<W> {
        if 1 <= id <= self.sockets.len() {
            Store {
                sockets: self.sockets.update(id - 1, self.sockets[id - 1].push(entry)),
                ..self
            }
        } else {
            self
        }
    }
}

impl<W> View for State<W> {
    type V = Store<W>;

    closed spec fn view(&self) -> Store<W> {
        Store {
            print_mode: self.print_mode,
            records: Seq::new(
                tables::traffic_rows(self.traffics).len(),
                |i: int| tables::traffic_rows(self.traffics)[i].1@,
            ),
            rules: self.rules@,
            pending: self.pending@,
            sockets: Seq::new(
                tables::socket_rows(self.websockets).len(),
                |i: int| message::entries(tables::socket_rows(self.websockets)[i].1@),
            ),
        }
    }
}

impl<W> State<W> {
    /// Rows stand at the place that their number tells, and every rule can be matched.
    pub closed spec fn wf(&self) -> bool {
        &&& forall|i: int|
            0 <= i < tables::traffic_rows(self.traffics).len() ==> (
            #[trigger] tables::traffic_rows(self.traffics)[i]).0 == i + 1
        &&& forall|i: int|
            0 <= i < tables::socket_rows(self.websockets).len() ==> (
            #[trigger] tables::socket_rows(self.websockets)[i]).0 == i + 1
        &&& forall|i: int| 0 <= i < self.rules@.len() ==> (#[trigger] self.rules@[i]).wf()
        &&& tables::traffic_rows(self.traffics).len() < usize::MAX
        &&& tables::socket_rows(self.websockets).len() < usize::MAX
    }

    /// The state in which the proxy starts.
    pub fn new(print_mode: PrintMode) -> (r: Self)
        ensures
            r.wf(),
            r@ == Store::<W>::start(print_mode),
    {
        let r: State<W> = State {
            print_mode,
            traffics: tables::new_traffics(),
            rules: Vec::new(),
            pending: HashMap::new(),
            websockets: tables::new_sockets(),
        };
        proof {
            assert(r@ =~= Store::<W>::start(print_mode));
        }
        r
    }

    /// The rules, in order.
    pub fn list_rules(&self) -> (r: Vec<Rule>)
        ensures
            r@ == self@.rules,
    {
        let mut r: Vec<Rule> = Vec::new();
        let mut i: usize = 0;
        while i < self.rules.len()
            invariant
                i <= self.rules@.len(),
                r@ == self.rules@.take(i as int),
            decreases self.rules@.len() - i,
        {
            r.push(self.rules[i].clone());
            i = i + 1;
            proof {
                assert(r@ =~= self.rules@.take(i as int));
            }
        }
        proof {
            assert(self.rules@.take(i as int) =~= self.rules@);
        }
        r
    }

    /// Adds a rule behind the others.
    pub fn add_rule(&mut self, rule: Rule)
        requires
            old(self).wf(),
            rule.wf(),
        ensures
            final(self).wf(),
            final(self)@ == (Store { rules: old(self)@.rules.push(rule), ..old(self)@ }),
            final(self)@ == old(self)@.ruled(rule),
    {
        self.rules.push(rule);
    }

    /// Takes out the rule at a place; a place behind the last rule changes nothing.
    pub fn remove_rule(&mut self, index: usize)
        requires
            old(self).wf(),
        ensures
            final(self).wf(),
            final(self)@ == (if index < old(self)@.rules.len() {
                Store { rules: old(self)@.rules.remove(index as int), ..old(self)@ }
            } else {
                old(self)@
            }),
            final(self)@ == old(self)@.unruled(index as int),
    {
        if index < self.rules.len() {
            let _removed: Rule = self.rules.remove(index);
        }
    }

    /// Finds the action of the first rule that takes a request.
    pub fn match_rules(&self, method: &str, uri: &str, is_websocket: bool) -> (r: Option<
        RuleAction,
    >)
        requires
            self.wf(),
            rules::fits_glob(uri@),
        ensures
            !rules::has_backslash(uri@) ==> r == rules::first_action(
                self@.rules,
                method@,
                is_websocket,
                rules::uri_verdicts(self@.rules, uri@),
            ),
            exists|verdicts: Seq<bool>| #[trigger]
                verdicts.len() == self@.rules.len() && r == rules::first_action(
                    self@.rules,
                    method@,
                    is_websocket,
                    verdicts,
                ),
    {
        rules::match_rules(&self.rules, method, uri, is_websocket)
    }

    fn find(&self, gid: usize) -> (r: Option<usize>)
        requires
            self.wf(),
        ensures
            match r {
                Some(i) => place_of(self@.records, gid) == Some(i as int) && i
                    < self@.records.len(),
                None => place_of(self@.records, gid) is None,
            },
    {
        let n: usize = tables::traffics_len(&self.traffics);
        let mut i: usize = 0;
        while i < n
            invariant
                i <= n,
                n == self@.records.len(),
                n == tables::traffic_rows(self.traffics).len(),
                forall|j: int| 0 <= j < i ==> (#[trigger] self@.records[j]).gid != gid,
            decreases n - i,
        {
            let row: (usize, &Traffic) = tables::traffics_at(&self.traffics, i);
            proof {
                assert(self@.records[i as int] == row.1@);
            }
            if row.1.gid == gid {
                proof {
                    law_place_is_the_first(self@.records, gid, i as int);
                }
                return Some(i);
            }
            i = i + 1;
        }
        proof {
            lemma_no_place(self@.records, gid);
        }
        None
    }

    fn set_traffic_pending(&self, gid: usize, pending: bool) -> (r: Option<TrafficHead>)
        requires
            self.wf(),
        ensures
            notice_view(r) == pending_notice(self@.records, gid, pending),
    {
        match self.find(gid) {
            Some(i) => {
                let row: (usize, &Traffic) = tables::traffics_at(&self.traffics, i);
                let mut head: TrafficHead = row.1.head(row.0);
                head.pending = pending;
                Some(head)
            },
            None => None,
        }
    }

    /// Holds an exchange back. The one who waits for it is reached by `sender`; one who waited
    /// for the same exchange before is let go. The result is the summary to announce.
    pub fn add_pending(&mut self, gid: usize, phase: PendingPhase, sender: W) -> (r: Option<
        TrafficHead,
    >)
        requires
            old(self).wf(),
        ensures
            final(self).wf(),
            final(self)@ == old(self)@.held(gid, PendingEntry { sender, phase }),
            notice_view(r) == pending_notice(old(self)@.records, gid, true),
    {
        let _former: Option<PendingEntry<W>> = self.pending.insert(
            gid,
            PendingEntry { sender, phase },
        );
        self.set_traffic_pending(gid, true)
    }

    /// Ends the wait for an exchange that is held back, and says what goes to whom. Nothing comes
    /// back where the exchange is not held back.
    pub fn resolve_pending(&mut self, gid: usize, resolution: PendingResolution) -> (r: Option<
        Resolved<W>,
    >)
        requires
            old(self).wf(),
        ensures
            final(self).wf(),
            final(self)@ == (Store { pending: old(self)@.pending.remove(gid), ..old(self)@ }),
            final(self)@ == old(self)@.resolved(gid),
            match r {
                Some(sent) => {
                    &&& old(self)@.pending.contains_key(gid)
                    &&& sent.sender == old(self)@.pending[gid].sender
                    &&& sent.resolution == resolution
                    &&& notice_view(sent.notice) == pending_notice(old(self)@.records, gid, false)
                },
                None => !old(self)@.pending.contains_key(gid),
            },
            sends_on(old(self)@, gid, resolution, r),
    {
        match self.pending.remove(&gid) {
            Some(entry) => {
                let notice: Option<TrafficHead> = self.set_traffic_pending(gid, false);
                Some(Resolved { sender: entry.sender, resolution, notice })
            },
            None => None,
        }
    }

    /// The side of an exchange that is held back.
    pub fn is_pending(&self, gid: usize) -> (r: Option<PendingPhase>)
        ensures
            r == (if self@.pending.contains_key(gid) {
                Some(self@.pending[gid].phase)
            } else {
                None
            }),
            r == self@.phase_of(gid),
    {
        match self.pending.get(&gid) {
            Some(entry) => Some(entry.phase),
            None => None,
        }
    }

    /// Lets everything that is held back go on unedited, and says who is told so. No summary is
    /// announced.
    pub fn cancel_all_pending(&mut self) -> (r: Vec<(usize, Resolved<W>)>)
        requires
            old(self).wf(),
        ensures
            final(self).wf(),
            final(self)@ == (Store { pending: Map::empty(), ..old(self)@ }),
            releases(old(self)@.pending, r@),
    {
        let mut gids: Vec<usize> = Vec::new();
        let ghost held = self.pending@;
        for gid in it: self.pending.keys()
            invariant
                gids@.len() == it.index(),
                forall|j: int| 0 <= j < gids@.len() ==> #[trigger] gids@[j] == *it.seq()[j],
                it.index() == it.seq().len() ==> gids@ == it.seq().unref(),
                it.seq().unref().to_set() == held.dom(),
                it.seq().no_duplicates(),
                held == self.pending@,
        {
            gids.push(*gid);
        }
        proof {
            assert(gids@.to_set() == held.dom());
            assert forall|gid: usize| held.contains_key(gid) <==> #[trigger] gids@.contains(
                gid,
            ) by {
                assert(gids@.to_set().contains(gid) <==> gids@.contains(gid));
            }
            assert forall|gid: usize| #[trigger]
                self.pending@.contains_key(gid) <==> exists|j: int|
                    0 <= j < gids@.len() && gids@[j] == gid by {
                assert(gids@.contains(gid) <==> held.contains_key(gid));
            }
            assert(gids@.no_duplicates());
        }
        let mut r: Vec<(usize, Resolved<W>)> = Vec::new();
        let mut i: usize = 0;
        while i < gids.len()
            invariant
                i <= gids@.len(),
                self.wf(),
                self@ == (Store { pending: self@.pending, ..old(self)@ }),
                held == old(self)@.pending,
                gids@.no_duplicates(),
                forall|gid: usize| held.contains_key(gid) <==> #[trigger] gids@.contains(gid),
                forall|gid: usize| #[trigger]
                    self.pending@.contains_key(gid) <==> exists|j: int|
                        i <= j < gids@.len() && gids@[j] == gid,
                forall|gid: usize| #[trigger]
                    self.pending@.contains_key(gid) ==> self.pending@[gid] == held[gid],
                r@.len() == i,
                forall|j: int|
                    0 <= j < i ==> {
                        &&& (#[trigger] r@[j]).0 == gids@[j]
                        &&& r@[j].1.sender == held[gids@[j]].sender
                        &&& r@[j].1.resolution == PendingResolution::Continue(None)
                        &&& r@[j].1.notice is None
                    },
            decreases gids@.len() - i,
        {
            proof {
                assert(self.pending@.contains_key(gids@[i as int]));
                assert(gids@.contains(gids@[i as int]));
            }
            match self.pending.remove(&gids[i]) {
                Some(entry) => {
                    let sent: Resolved<W> = Resolved {
                        sender: entry.sender,
                        resolution: PendingResolution::Continue(None),
                        notice: None,
                    };
                    r.push((gids[i], sent));
                },
                None => {},
            }
            i = i + 1;
        }
        proof {
            assert(self.pending@ =~= Map::empty());
            assert forall|j: int| 0 <= j < r@.len() implies held.contains_key(
                (#[trigger] r@[j]).0,
            ) by {
                assert(gids@.contains(gids@[j]));
            }
            assert forall|gid: usize| #[trigger] held.contains_key(gid) implies exists|j: int|
                0 <= j < r@.len() && (#[trigger] r@[j]).0 == gid by {
                assert(gids@.contains(gid));
                let j = gids@.index_of(gid);
                assert(r@[j].0 == gid);
            }
        }
        r
    }

    fn append(&mut self, traffic: Traffic) -> (r: (usize, TrafficHead))
        requires
            old(self).wf(),
        ensures
            final(self).wf(),
            final(self)@ == old(self)@.recorded(traffic@),
            r.0 == old(self)@.records.len() + 1,
            r.1@ == traffic@.head(r.0),
    {
        let n: usize = tables::traffics_len(&self.traffics);
        let id: usize = n + 1;
        let head: TrafficHead = traffic.head(id);
        tables::traffics_insert(&mut self.traffics, id, traffic);
        // Counting the table anew shows that it has fewer rows than can be counted.
        let _count: usize = tables::traffics_len(&self.traffics);
        proof {
            assert(self@.records =~= old(self)@.records.push(traffic@));
            assert(self@ =~= old(self)@.recorded(traffic@));
        }
        (id, head)
    }

    /// Adds an exchange, where the filters let it pass. The result is the summary to announce.
    pub fn add_traffic(&mut self, traffic: Traffic) -> (r: Option<TrafficHead>)
        requires
            old(self).wf(),
        ensures
            final(self).wf(),
            final(self)@ == old(self)@.added(traffic@),
            notice_view(r) == (if traffic@.valid {
                Some(traffic@.head((old(self)@.records.len() + 1) as usize))
            } else {
                None
            }),
    {
        if !traffic.valid {
            return None;
        }
        let (_, head) = self.append(traffic);
        Some(head)
    }

    /// Adds an exchange that is still under way, without asking whether the filters let it pass.
    /// The result is its number and the summary to announce.
    pub fn add_traffic_early(&mut self, traffic: &Traffic) -> (r: (usize, TrafficHead))
        requires
            old(self).wf(),
        ensures
            final(self).wf(),
            final(self)@ == old(self)@.recorded(traffic@),
            r.0 == old(self)@.records.len() + 1,
            r.1@ == traffic@.head(r.0),
    {
        self.append(traffic.clone())
    }

    /// Puts an exchange in the place of the first one with its `gid`. The result is the summary to
    /// announce; nothing happens where there is no such exchange.
    pub fn update_traffic(&mut self, traffic: &Traffic) -> (r: Option<TrafficHead>)
        requires
            old(self).wf(),
        ensures
            final(self).wf(),
            final(self)@ == old(self)@.updated(traffic@),
            notice_view(r) == (match place_of(old(self)@.records, traffic@.gid) {
                Some(i) => Some(traffic@.head((i + 1) as usize)),
                None => None,
            }),
    {
        match self.find(traffic.gid) {
            Some(i) => {
                let copy: Traffic = traffic.clone();
                let existing: &mut Traffic = tables::traffics_at_mut(&mut self.traffics, i);
                *existing = copy;
                proof {
                    assert(self@.records =~= old(self)@.records.update(i as int, traffic@));
                    assert(self@ =~= old(self)@.updated(traffic@));
                }
                Some(traffic.head(i + 1))
            },
            None => None,
        }
    }

    /// Records that the first exchange with a `gid` is done. The result is what is announced and
    /// what is written to the console; nothing happens where there is no such exchange.
    pub fn done_traffic(&mut self, gid: usize, raw_size: u64) -> (r: Option<Finished>)
        requires
            old(self).wf(),
        ensures
            final(self).wf(),
            match place_of(old(self)@.records, gid) {
                Some(i) => {
                    let record = Record {
                        res_body_size: Some(raw_size),
                        ..old(self)@.records[i]
                    };
                    &&& final(self)@ == old(self)@.updated(record)
                    &&& r matches Some(done) && done.head@ == record.head((i + 1) as usize)
                        && prints(done.printing, old(self)@.print_mode, record)
                },
                None => final(self)@ == old(self)@ && r is None,
            },
            final(self)@ == old(self)@.finished(gid, raw_size),
    {
        match self.find(gid) {
            Some(i) => {
                let print_mode: PrintMode = self.print_mode;
                let ghost before = old(self)@.records[i as int];
                let existing: &mut Traffic = tables::traffics_at_mut(&mut self.traffics, i);
                existing.done_res_body(raw_size);
                let head: TrafficHead = existing.head(i + 1);
                let printing: Printing = match print_mode {
                    PrintMode::Nothing => Printing::Nothing,
                    PrintMode::Oneline => Printing::Oneline(existing.clone()),
                    PrintMode::Markdown => Printing::Markdown(existing.clone()),
                };
                proof {
                    let record = Record { res_body_size: Some(raw_size), ..before };
                    lemma_place_in_range(old(self)@.records, gid);
                    assert(record.gid == gid);
                    assert(self@.records =~= old(self)@.records.update(i as int, record));
                    assert(self@ =~= old(self)@.updated(record));
                }
                Some(Finished { head, printing })
            },
            None => None,
        }
    }

    /// The exchange with a number.
    pub fn get_traffic(&self, id: usize) -> (r: Option<Traffic>)
        requires
            self.wf(),
        ensures
            match r {
                Some(t) => 1 <= id <= self@.records.len() && t@ == self@.records[id - 1],
                None => !(1 <= id <= self@.records.len()),
            },
    {
        match tables::traffics_get(&self.traffics, id) {
            Some(t) => {
                proof {
                    let rows = tables::traffic_rows(self.traffics);
                    let i = rows.index_of((id, *t));
                    assert(rows[i].0 == i + 1);
                    assert(self@.records[i] == rows[i].1@);
                }
                Some(t.clone())
            },
            None => {
                proof {
                    let rows = tables::traffic_rows(self.traffics);
                    if 1 <= id <= rows.len() {
                        assert(rows[id - 1].0 == id);
                    }
                }
                None
            },
        }
    }

    /// The first exchange with a `gid`, and its number.
    pub fn get_traffic_by_gid(&self, gid: usize) -> (r: Option<(usize, Traffic)>)
        requires
            self.wf(),
        ensures
            match r {
                Some((id, t)) => place_of(self@.records, gid) == Some(id - 1) && t@
                    == self@.records[id - 1],
                None => place_of(self@.records, gid) is None,
            },
    {
        match self.find(gid) {
            Some(i) => {
                let row: (usize, &Traffic) = tables::traffics_at(&self.traffics, i);
                Some((row.0, row.1.clone()))
            },
            None => None,
        }
    }

    /// The summaries of all exchanges, in order.
    pub fn list_heads(&self) -> (r: Vec<TrafficHead>)
        requires
            self.wf(),
        ensures
            head_views(r@) == all_heads(self@.records),
    {
        let n: usize = tables::traffics_len(&self.traffics);
        let mut r: Vec<TrafficHead> = Vec::new();
        let mut i: usize = 0;
        while i < n
            invariant
                i <= n,
                self.wf(),
                n == self@.records.len(),
                n == tables::traffic_rows(self.traffics).len(),
                r@.len() == i,
                forall|j: int|
                    0 <= j < i ==> (#[trigger] r@[j])@ == all_heads(self@.records)[j],
            decreases n - i,
        {
            let row: (usize, &Traffic) = tables::traffics_at(&self.traffics, i);
            r.push(row.1.head(row.0));
            i = i + 1;
        }
        proof {
            assert(head_views(r@) =~= all_heads(self@.records));
        }
        r
    }

    /// The exchanges, in order.
    pub fn list_traffics(&self) -> (r: Vec<Traffic>)
        requires
            self.wf(),
        ensures
            record_views(r@) == self@.records,
    {
        let n: usize = tables::traffics_len(&self.traffics);
        let mut r: Vec<Traffic> = Vec::new();
        let mut i: usize = 0;
        while i < n
            invariant
                i <= n,
                self.wf(),
                n == self@.records.len(),
                n == tables::traffic_rows(self.traffics).len(),
                r@.len() == i,
                forall|j: int| 0 <= j < i ==> (#[trigger] r@[j])@ == self@.records[j],
            decreases n - i,
        {
            let row: (usize, &Traffic) = tables::traffics_at(&self.traffics, i);
            r.push(row.1.clone());
            i = i + 1;
        }
        proof {
            assert(record_views(r@) =~= self@.records);
        }
        r
    }

    /// Takes in a new WebSocket, and gives it its number.
    pub fn new_websocket(&mut self) -> (r: usize)
        requires
            old(self).wf(),
        ensures
            final(self).wf(),
            r == old(self)@.sockets.len() + 1,
            final(self)@ == (Store {
                sockets: old(self)@.sockets.push(Seq::empty()),
                ..old(self)@
            }),
            final(self)@ == old(self)@.opened(),
    {
        let n: usize = tables::sockets_len(&self.websockets);
        let id: usize = n + 1;
        let messages: Vec<WebsocketMessage> = Vec::new();
        tables::sockets_insert(&mut self.websockets, id, messages);
        // Counting the table anew shows that it has fewer rows than can be counted.
        let _count: usize = tables::sockets_len(&self.websockets);
        proof {
            assert(message::entries(messages@) =~= Seq::empty());
            assert(self@.sockets =~= old(self)@.sockets.push(Seq::empty()));
        }
        id
    }

    fn note(&mut self, id: usize, message: WebsocketMessage) -> (r: Option<
        (usize, WebsocketMessage),
    >)
        requires
            old(self).wf(),
        ensures
            final(self).wf(),
            final(self)@ == old(self)@.noted(id, message@),
            announces(r, id, message@, 1 <= id <= old(self)@.sockets.len()),
    {
        let copy: WebsocketMessage = message.clone();
        let ghost rows = tables::socket_rows(self.websockets);
        match tables::sockets_get_mut(&mut self.websockets, id) {
            Some(messages) => {
                let ghost before = messages@;
                messages.push(message);
                proof {
                    let changed = tables::socket_rows(self.websockets);
                    assert(rows[id - 1].0 == id);
                    assert(changed.len() == rows.len());
                    assert(message::entries(changed[id - 1].1@) =~= message::entries(
                        rows[id - 1].1@,
                    ).push(message@));
                    assert(self@.sockets =~= old(self)@.sockets.update(
                        id - 1,
                        old(self)@.sockets[id - 1].push(message@),
                    ));
                }
                Some((id, copy))
            },
            None => {
                proof {
                    if 1 <= id <= rows.len() {
                        assert(rows[id - 1].0 == id);
                    }
                }
                None
            },
        }
    }

    /// Records that something went wrong with a WebSocket. The result is what is announced;
    /// nothing happens where there is no such WebSocket.
    pub fn add_websocket_error(&mut self, id: usize, error: String) -> (r: Option<
        (usize, WebsocketMessage),
    >)
        requires
            old(self).wf(),
        ensures
            final(self).wf(),
            final(self)@ == old(self)@.noted(id, Entry::Error(error@)),
            announces(r, id, Entry::Error(error@), 1 <= id <= old(self)@.sockets.len()),
    {
        self.note(id, WebsocketMessage::Error(error))
    }

    /// Records a message of a WebSocket, where it carries text or data. The result is what is
    /// announced; nothing happens where there is no such WebSocket.
    pub fn add_websocket_message(
        &mut self,
        id: usize,
        message: &WsMessage,
        server_to_client: bool,
        now: i128,
    ) -> (r: Option<(usize, WebsocketMessage)>)
        requires
            old(self).wf(),
        ensures
            final(self).wf(),
            match message::recorded_payload(*message) {
                Some(payload) => {
                    let entry = Entry::Data(now, server_to_client, payload);
                    &&& final(self)@ == old(self)@.noted(id, entry)
                    &&& announces(r, id, entry, 1 <= id <= old(self)@.sockets.len())
                },
                None => final(self)@ == old(self)@ && r is None,
            },
    {
        match message::recorded_body(message) {
            Some(body) => self.note(
                id,
                WebsocketMessage::Data(WebsocketData { create: now, server_to_client, body }),
            ),
            None => None,
        }
    }

    /// What has been recorded of a WebSocket so far.
    pub fn subscribe_websocket(&self, id: usize) -> (r: Option<Vec<WebsocketMessage>>)
        requires
            self.wf(),
        ensures
            match r {
                Some(list) => 1 <= id <= self@.sockets.len() && message::entries(list@)
                    == self@.sockets[id - 1],
                None => !(1 <= id <= self@.sockets.len()),
            },
    {
        match tables::sockets_get(&self.websockets, id) {
            Some(messages) => {
                proof {
                    let rows = tables::socket_rows(self.websockets);
                    let i = rows.index_of((id, *messages));
                    assert(rows[i].0 == i + 1);
                    assert(self@.sockets[i] == message::entries(rows[i].1@));
                }
                Some(message::copy_entries(messages))
            },
            None => {
                proof {
                    let rows = tables::socket_rows(self.websockets);
                    if 1 <= id <= rows.len() {
                        assert(rows[id - 1].0 == id);
                    }
                }
                None
            },
        }
    }
}

/// A record that comes behind others is found there by its `gid`, where none of them has it.
pub proof fn law_only_the_last_has_it(records: Seq<Record>, record: Record)
    requires
        place_of(records, record.gid) is None,
    ensures
        place_of(records.push(record), record.gid) == Some(records.len() as int),
{
    law_places_are_found(records, record.gid);
    law_place_is_the_first(records.push(record), record.gid, records.len() as int);
}

/// A record that takes the place of the first one with its `gid` is found there.
pub proof fn law_replacing_keeps_the_place(records: Seq<Record>, record: Record)
    requires
        place_of(records, record.gid) is Some,
    ensures
        ({
            let at = place_of(records, record.gid)->0;
            place_of(records.update(at, record), record.gid) == Some(at)
        }),
{
    let at = place_of(records, record.gid)->0;
    law_places_are_found(records, record.gid);
    law_place_is_the_first(records.update(at, record), record.gid, at);
}

/// A place is found exactly where a record has the `gid`: the record there has it, and none before
/// it does.
pub proof fn law_places_are_found(records: Seq<Record>, gid: usize)
    ensures
        place_of(records, gid) is None <==> forall|i: int|
            0 <= i < records.len() ==> (#[trigger] records[i]).gid != gid,
        place_of(records, gid) matches Some(at) ==> 0 <= at < records.len() && records[at].gid == gid
            && forall|j: int| 0 <= j < at ==> (#[trigger] records[j]).gid != gid,
    decreases records.len(),
{
    if records.len() > 0 && records[0].gid != gid {
        let rest = records.skip(1);
        law_places_are_found(rest, gid);
        if place_of(rest, gid) is None {
            assert forall|i: int| 0 <= i < records.len() implies (#[trigger] records[i]).gid
                != gid by {
                if i > 0 {
                    assert(rest[i - 1].gid != gid);
                }
            }
        } else {
            let at = place_of(rest, gid)->0;
            assert(records[at + 1].gid == gid);
            assert forall|j: int| 0 <= j < at + 1 implies (#[trigger] records[j]).gid != gid by {
                if j > 0 {
                    assert(rest[j - 1].gid != gid);
                }
            }
        }
    }
}

/// What is announced of an exchange that is held back, or no longer, is its summary under its own
/// number, with the word that it waits or that it does not.
pub proof fn law_waiting_is_announced(records: Seq<Record>, gid: usize, pending: bool)
    requires
        records.len() < usize::MAX,
    ensures
        pending_notice(records, gid, pending) is Some <==> exists|i: int|
            0 <= i < records.len() && (#[trigger] records[i]).gid == gid,
        pending_notice(records, gid, pending) matches Some(head) ==> {
            &&& head.pending == pending
            &&& 1 <= head.id <= records.len()
            &&& records[head.id - 1].gid == gid
            &&& head.method == records[head.id - 1].method
            &&& head.uri == records[head.id - 1].uri
            &&& head.status == records[head.id - 1].status
            &&& head.size == records[head.id - 1].res_body_size
            &&& head.websocket_id == records[head.id - 1].websocket_id
        },
{
    law_places_are_found(records, gid);
}

/// The list of summaries has one for each exchange, in order, with the number that the exchange has
/// and with what the exchange holds.
pub proof fn law_every_exchange_has_its_summary(records: Seq<Record>, i: int)
    requires
        0 <= i < records.len(),
        records.len() < usize::MAX,
    ensures
        all_heads(records).len() == records.len(),
        all_heads(records)[i].id == i + 1,
        all_heads(records)[i].method == records[i].method,
        all_heads(records)[i].uri == records[i].uri,
        all_heads(records)[i].status == records[i].status,
        all_heads(records)[i].size == records[i].res_body_size,
        all_heads(records)[i].websocket_id == records[i].websocket_id,
        !all_heads(records)[i].pending,
{
}

/// What is written to the console goes by the mode alone: nothing, one line or Markdown, of the
/// exchange that is done.
pub proof fn law_printing_goes_by_the_mode(printing: Printing, mode: PrintMode, record: Record)
    requires
        prints(printing, mode, record),
    ensures
        printing is Nothing <==> mode == PrintMode::Nothing,
        printing is Oneline <==> mode == PrintMode::Oneline,
        printing is Markdown <==> mode == PrintMode::Markdown,
        printing matches Printing::Oneline(t) ==> t@ == record,
        printing matches Printing::Markdown(t) ==> t@ == record,
{
}

/// The proxy starts with nothing recorded, no rule, nothing held back and no WebSocket.
pub proof fn law_the_start_is_empty<W>(print_mode: PrintMode, gid: usize)
    ensures
        Store::<W>::start(print_mode).records.len() == 0,
        Store::<W>::start(print_mode).rules.len() == 0,
        !Store::<W>::start(print_mode).pending.contains_key(gid),
        Store::<W>::start(print_mode).sockets.len() == 0,
        Store::<W>::start(print_mode).print_mode == print_mode,
{
}

/// What is recorded without a question comes last; what is added is recorded exactly where the
/// filters let it pass; what is held back is held back under its `gid` and changes nothing else.
pub proof fn law_the_store_takes_in<W>(
    store: Store<W>,
    record: Record,
    gid: usize,
    entry: PendingEntry<W>,
    other: usize,
)
    ensures
        store.recorded(record).records.len() == store.records.len() + 1,
        store.recorded(record).records.last() == record,
        store.recorded(record).records.drop_last() == store.records,
        record.valid ==> store.added(record) == store.recorded(record),
        !record.valid ==> store.added(record) == store,
        store.held(gid, entry).pending.contains_key(gid),
        store.held(gid, entry).pending[gid] == entry,
        other != gid ==> store.held(gid, entry).pending.contains_key(other)
            == store.pending.contains_key(other),
        other != gid && store.pending.contains_key(other) ==> store.held(gid, entry).pending[other]
            == store.pending[other],
        store.held(gid, entry).records == store.records,
        store.held(gid, entry).rules == store.rules,
        store.held(gid, entry).sockets == store.sockets,
{
    assert(store.recorded(record).records.drop_last() =~= store.records);
}

/// The phases of what is held back have the words by which a user knows them.
pub proof fn law_phases_have_their_words()
    ensures
        PendingPhase::Request.word() == "Request"@,
        PendingPhase::Response.word() == "Response"@,
{
}

/// What is done to rules is done in order: a rule that is added comes behind all others, and one
/// that is taken out by its place leaves the others in their order. Taking out a rule that is not
/// there changes nothing, and what was added last is taken out again.
pub proof fn law_rules_are_kept_in_order<W>(store: Store<W>, rule: Rule, index: int, i: int)
    ensures
        store.ruled(rule).rules.len() == store.rules.len() + 1,
        store.ruled(rule).rules.last() == rule,
        0 <= i < store.rules.len() ==> store.ruled(rule).rules[i] == store.rules[i],
        store.ruled(rule).unruled(store.rules.len() as int) == store,
        0 <= index < store.rules.len() ==> {
            &&& store.unruled(index).rules.len() == store.rules.len() - 1
            &&& 0 <= i < index ==> store.unruled(index).rules[i] == store.rules[i]
            &&& index <= i < store.rules.len() - 1 ==> store.unruled(index).rules[i]
                == store.rules[i + 1]
        },
        index < 0 || index >= store.rules.len() ==> store.unruled(index) == store,
        store.ruled(rule).records == store.records,
        store.ruled(rule).pending == store.pending,
        store.ruled(rule).sockets == store.sockets,
        store.unruled(index).records == store.records,
        store.unruled(index).pending == store.pending,
        store.unruled(index).sockets == store.sockets,
{
    assert(store.rules.push(rule).remove(store.rules.len() as int) =~= store.rules);
}

/// An exchange is held back on the side that was told, until its wait is ended; what is done to one
/// exchange has no part in whether another is held back. Ending a wait undoes holding back, and
/// touches neither what is recorded nor the rules.
pub proof fn law_waits_end_when_resolved<W>(
    store: Store<W>,
    gid: usize,
    entry: PendingEntry<W>,
    other: usize,
)
    ensures
        store.held(gid, entry).phase_of(gid) == Some(entry.phase),
        store.resolved(gid).phase_of(gid) is None,
        other != gid ==> store.held(gid, entry).phase_of(other) == store.phase_of(other),
        other != gid ==> store.resolved(gid).phase_of(other) == store.phase_of(other),
        store.phase_of(gid) is Some <==> store.pending.contains_key(gid),
        store.phase_of(gid) is None ==> store.held(gid, entry).resolved(gid) == store,
        store.resolved(gid).records == store.records,
        store.resolved(gid).rules == store.rules,
        store.resolved(gid).sockets == store.sockets,
{
    if store.phase_of(gid) is None {
        assert(store.pending.insert(gid, entry).remove(gid) =~= store.pending);
    }
}

/// Where everything is let go on, each who waited is told once, that the exchange goes on unedited;
/// nobody else is told anything.
pub proof fn law_everyone_is_let_go<W>(
    pending: Map<usize, PendingEntry<W>>,
    sent: Seq<(usize, Resolved<W>)>,
    gid: usize,
)
    requires
        releases(pending, sent),
    ensures
        pending.contains_key(gid) ==> exists|i: int|
            0 <= i < sent.len() && (#[trigger] sent[i]).0 == gid && sent[i].1.sender
                == pending[gid].sender && sent[i].1.resolution == PendingResolution::Continue(None),
        forall|i: int|
            0 <= i < sent.len() ==> pending.contains_key((#[trigger] sent[i]).0)
                && sent[i].1.resolution == PendingResolution::Continue(None)
                && sent[i].1.notice is None,
        forall|i: int, j: int|
            0 <= i < sent.len() && 0 <= j < sent.len() && i != j ==> (#[trigger] sent[i]).0 != (
            #[trigger] sent[j]).0,
{
    if pending.contains_key(gid) {
        let i = choose|i: int| 0 <= i < sent.len() && (#[trigger] sent[i]).0 == gid;
        assert(sent[i].1.sender == pending[gid].sender);
    }
}

/// A WebSocket that is taken in has nothing recorded yet and the next number; the others keep what
/// they have.
pub proof fn law_new_sockets_are_empty<W>(store: Store<W>, other: int)
    ensures
        store.opened().sockets.len() == store.sockets.len() + 1,
        store.opened().sockets.last().len() == 0,
        0 <= other < store.sockets.len() ==> store.opened().sockets[other] == store.sockets[other],
        store.opened().records == store.records,
        store.opened().rules == store.rules,
        store.opened().pending == store.pending,
{
}

/// An exchange that is done gets its size, in its place, and all else stays as it is.
pub proof fn law_done_exchanges_get_their_size<W>(
    store: Store<W>,
    gid: usize,
    raw_size: u64,
    other: int,
)
    ensures
        store.finished(gid, raw_size).records.len() == store.records.len(),
        place_of(store.records, gid) matches Some(at) ==> store.finished(gid, raw_size).records[at]
            == (Record { res_body_size: Some(raw_size), ..store.records[at] }),
        0 <= other < store.records.len() && place_of(store.records, gid) != Some(other)
            ==> store.finished(gid, raw_size).records[other] == store.records[other],
        store.finished(gid, raw_size).rules == store.rules,
        store.finished(gid, raw_size).pending == store.pending,
        store.finished(gid, raw_size).sockets == store.sockets,
{
    law_places_are_found(store.records, gid);
}

/// What is announced of a WebSocket is the entry itself under the number of the WebSocket, exactly
/// where there is such a WebSocket.
pub proof fn law_announcements_are_entries(
    news: Option<(usize, WebsocketMessage)>,
    id: usize,
    entry: Entry,
    known: bool,
)
    requires
        announces(news, id, entry, known),
    ensures
        news is Some <==> known,
        news matches Some((n, m)) ==> n == id && m@ == entry,
{
}

/// A resolution reaches the one who waits for the exchange and nobody else, as it was given; where
/// nobody waits, nothing is sent. Beside it the exchange is announced, where it is recorded, as one
/// that no longer waits.
pub proof fn law_resolutions_reach_who_waits<W>(
    store: Store<W>,
    gid: usize,
    resolution: PendingResolution,
    sent: Option<Resolved<W>>,
)
    requires
        sends_on(store, gid, resolution, sent),
        store.records.len() < usize::MAX,
    ensures
        sent is Some <==> store.phase_of(gid) is Some,
        sent matches Some(s) ==> {
            &&& s.sender == store.pending[gid].sender
            &&& s.resolution == resolution
            &&& s.notice is Some <==> exists|i: int|
                0 <= i < store.records.len() && (#[trigger] store.records[i]).gid == gid
            &&& s.notice matches Some(head) ==> !head.pending && 1 <= head.id
                <= store.records.len() && store.records[head.id - 1].gid == gid
        },
{
    law_waiting_is_announced(store.records, gid, false);
}

/// Nothing is written to the console in the mode for it; one line has a hash sign and a blank in
/// front, and Markdown is written as it was rendered.
pub proof fn law_console_lines_have_a_hash_sign(traffic: Traffic, rendered: Seq<char>)
    ensures
        Printing::Nothing.written(rendered) is None,
        Printing::Oneline(traffic).written(rendered) == Some(seq!['#', ' '] + rendered),
        Printing::Markdown(traffic).written(rendered) == Some(rendered),
{
    reveal_strlit("# ");
    assert("# "@ =~= seq!['#', ' ']);
}

} // verus!
