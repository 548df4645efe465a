//! Counting the bytes of a body that is passed through.
use vstd::prelude::*;

verus! {

/// What a body brings next. Only data counts; trailers, errors and the end do not.
#[derive(Clone, Copy, Debug, PartialEq, Eq, Structural)]
pub enum BodyEvent {
    Data(usize),
    Trailers,
    Failed,
    End,
}

/// A body that is passed through: the exchange that is told when it is done, and how many bytes
/// have passed.
#[derive(Debug)]
pub struct BodyWrapper {
    pub traffic_done: Option<usize>,
    pub raw_size: u64,
}

/// How many bytes of data there are in a list of events.
pub open spec fn data_len(events: Seq<BodyEvent>) -> nat
    decreases events.len(),
{
    if events.len() == 0 {
        0
    } else {
        data_len(events.drop_last()) + (match events.last() {
            BodyEvent::Data(n) => n as nat,
            _ => 0,
        })
    }
}

/// How many bytes have passed after one more event.
pub open spec fn passed(size: nat, event: BodyEvent) -> nat {
    match event {
        BodyEvent::Data(n) => size + n as nat,
        _ => size,
    }
}

/// How many bytes have passed after some events, one after the other.
pub open spec fn passed_all(size: nat, events: Seq<BodyEvent>) -> nat
    decreases events.len(),
{
    if events.len() == 0 {
        size
    } else {
        passed_all(passed(size, events[0]), events.skip(1))
    }
}

/// What is told of a body when it is dropped.
pub open spec fn told_at_the_end(body: BodyWrapper) -> Option<(usize, u64)> {
    match body.traffic_done {
        Some(gid) => Some((gid, body.raw_size)),
        None => None,
    }
}

impl BodyWrapper {
    /// A body of which nothing has passed.
    pub fn new(traffic_done: Option<usize>) -> (r: Self)
        ensures
            r.traffic_done == traffic_done,
            r.raw_size == 0,
    {
        BodyWrapper { traffic_done, raw_size: 0 }
    }

    /// Lets the next event pass. The result tells whether it is data, which is also written to the
    /// file that keeps the body.
    pub fn pass(&mut self, event: BodyEvent) -> (r: bool)
        requires
            passed(old(self).raw_size as nat, event) <= u64::MAX,
        ensures
            r == (event is Data),
            final(self).traffic_done == old(self).traffic_done,
            final(self).raw_size == passed(old(self).raw_size as nat, event),
    {
        match event {
            BodyEvent::Data(n) => {
                self.raw_size = self.raw_size + n as u64;
                true
            },
            _ => false,
        }
    }

    /// What is told when the body is dropped, done or not: the exchange and the bytes that have
    /// passed.
    pub fn done(&self) -> (r: Option<(usize, u64)>)
        ensures
            r == (match self.traffic_done {
                Some(gid) => Some((gid, self.raw_size)),
                None => None,
            }),
            r == told_at_the_end(*self),
    {
        match self.traffic_done {
            Some(gid) => Some((gid, self.raw_size)),
            None => None,
        }
    }
}

proof fn lemma_front(events: Seq<BodyEvent>)
    requires
        events.len() > 0,
    ensures
        data_len(events) == passed(0, events[0]) + data_len(events.skip(1)),
    decreases events.len(),
{
    if events.len() == 1 {
        assert(events.drop_last() =~= Seq::empty());
        assert(events.skip(1) =~= Seq::empty());
        assert(data_len(events.drop_last()) == 0);
    } else {
        lemma_front(events.drop_last());
        assert(events.drop_last().skip(1) =~= events.skip(1).drop_last());
        assert(events.skip(1).last() == events.last());
    }
}

proof fn lemma_passed_all(size: nat, events: Seq<BodyEvent>)
    ensures
        passed_all(size, events) == size + data_len(events),
    decreases events.len(),
{
    if events.len() > 0 {
        lemma_front(events);
        lemma_passed_all(passed(size, events[0]), events.skip(1));
    }
}

/// Over a whole run, from a new body to its end, the bytes that are told are those of all data that
/// has passed, and nothing else.
pub proof fn law_a_run_counts_all_data(events: Seq<BodyEvent>)
    ensures
        passed_all(0, events) == data_len(events),
{
    lemma_passed_all(0, events);
}

/// The bytes of data in two runs, one behind the other, are those of both; only data counts, each
/// piece with its length.
pub proof fn law_data_adds_up(first: Seq<BodyEvent>, second: Seq<BodyEvent>, n: usize, size: nat)
    ensures
        data_len(first + second) == data_len(first) + data_len(second),
        data_len(seq![BodyEvent::Data(n)]) == n,
        data_len(seq![BodyEvent::Trailers]) == 0,
        data_len(seq![BodyEvent::Failed]) == 0,
        data_len(seq![BodyEvent::End]) == 0,
        passed(size, BodyEvent::Data(n)) == size + n,
        passed(size, BodyEvent::Trailers) == size,
        passed(size, BodyEvent::Failed) == size,
        passed(size, BodyEvent::End) == size,
    decreases second.len(),
{
    reveal_with_fuel(data_len, 2);
    assert(seq![BodyEvent::Data(n)].drop_last() =~= Seq::empty());
    assert(seq![BodyEvent::Trailers].drop_last() =~= Seq::empty());
    assert(seq![BodyEvent::Failed].drop_last() =~= Seq::empty());
    assert(seq![BodyEvent::End].drop_last() =~= Seq::empty());
    if second.len() == 0 {
        assert(first + second =~= first);
    } else {
        law_data_adds_up(first, second.drop_last(), n, size);
        assert((first + second).drop_last() =~= first + second.drop_last());
        assert((first + second).last() == second.last());
    }
}

/// When a body is dropped, its exchange is told how many bytes have passed; where no exchange is to
/// be told, none is.
pub proof fn law_exchanges_are_told_their_bytes(gid: usize, raw_size: u64)
    ensures
        told_at_the_end(BodyWrapper { traffic_done: Some(gid), raw_size }) == Some((gid, raw_size)),
        told_at_the_end(BodyWrapper { traffic_done: None, raw_size }) is None,
{
}

} // verus!
