//! Tunnels: what a client speaks in one, and what is recorded of it.
use vstd::prelude::*;
use vstd::string::*;

use crate::exchange;
use crate::response;
use crate::response::{Reply, Response};
use crate::server::Server;
use crate::state;
use crate::state::Store;
use crate::text;
use crate::traffic::{Record, Traffic, TrafficHead};

verus! {

broadcast use vstd::string::group_string_axioms;

/// What a client speaks in a tunnel.
#[derive(Clone, Copy, Debug, PartialEq, Eq, Structural)]
pub enum Protocol {
    Http,
    Tls,
    Unknown,
}

/// What a client speaks, told by the first four bytes: a request, the record of a TLS handshake,
/// or anything else.
pub open spec fn protocol_of(first: Seq<u8>) -> Protocol {
    if first == seq![0x47u8, 0x45u8, 0x54u8, 0x20u8] {
        Protocol::Http
    } else if first[0] == 0x16 && first[1] == 0x03 {
        Protocol::Tls
    } else {
        Protocol::Unknown
    }
}

/// Finds out what a client speaks.
pub fn sniff(first: &[u8; 4]) -> (r: Protocol)
    ensures
        r == protocol_of(first@),
{
    if first[0] == 0x47 && first[1] == 0x45 && first[2] == 0x54 && first[3] == 0x20 {
        proof {
            assert(first@ =~= seq![0x47u8, 0x45u8, 0x54u8, 0x20u8]);
        }
        Protocol::Http
    } else {
        proof {
            let get = seq![0x47u8, 0x45u8, 0x54u8, 0x20u8];
            assert(first@[0] != get[0] || first@[1] != get[1] || first@[2] != get[2] || first@[3]
                != get[3]);
        }
        if first[0] == 0x16 && first[1] == 0x03 {
            Protocol::Tls
        } else {
            Protocol::Unknown
        }
    }
}

/// A digit of a hexadecimal number.
pub open spec fn hex_digit(d: u8) -> char {
    "0123456789ABCDEF"@[d as int]
}

/// A byte as two digits.
pub open spec fn hex_byte(b: u8) -> Seq<char> {
    seq![hex_digit(b / 16), hex_digit(b % 16)]
}

/// Bytes as a list of two digits each.
pub open spec fn hex_list(bytes: Seq<u8>) -> Seq<char> {
    "["@ + text::joined(Seq::new(bytes.len(), |i: int| hex_byte(bytes[i])), ", "@) + "]"@
}

fn write_hex_digit(d: u8) -> (r: &'static str)
    requires
        d < 16,
    ensures
        r@ == seq![hex_digit(d)],
{
    proof {
        reveal_strlit("0123456789ABCDEF");
    }
    let r: &'static str = "0123456789ABCDEF".substring_char(d as usize, d as usize + 1);
    proof {
        assert(r@ =~= seq![hex_digit(d)]);
    }
    r
}

fn write_hex(bytes: &[u8; 4]) -> (r: String)
    ensures
        r@ == hex_list(bytes@),
{
    let mut parts: Vec<String> = Vec::new();
    let mut i: usize = 0;
    while i < 4
        invariant
            i <= 4,
            parts@.len() == i,
            forall|j: int| 0 <= j < i ==> (#[trigger] parts@[j])@ == hex_byte(bytes@[j]),
        decreases 4 - i,
    {
        let ghost b = bytes@[i as int];
        let s: String = text::chain(
            write_hex_digit(bytes[i] / 16),
            write_hex_digit(bytes[i] % 16),
        );
        proof {
            assert(s@ =~= hex_byte(b));
        }
        parts.push(s);
        i = i + 1;
    }
    proof {
        assert(text::texts(parts@) =~= Seq::new(bytes@.len(), |i: int| hex_byte(bytes@[i])));
    }
    let mut r: String = text::chain("[", text::join(&parts, ", ").as_str());
    r.append("]");
    r
}

/// How a tunnel ends.
#[derive(Debug)]
pub enum TunnelEnd {
    /// The connection could not be made a tunnel.
    UpgradeFailed(String),
    /// The first bytes could not be read.
    ReadFailed(String),
    /// Plain HTTP was served, to its end or to an error.
    Http(Option<String>),
    /// There is no certificate for the destination.
    ConfigFailed(String),
    /// The client did not agree on TLS.
    AcceptFailed(String),
    /// HTTP over TLS was served, to its end or to an error.
    Https(Option<String>),
    /// The client speaks something else, and the destination could not be reached.
    Unreachable([u8; 4], String),
    /// The client speaks something else; bytes went both ways, to the end or to an error.
    Bytes([u8; 4], Option<String>),
}

/// The record with an error, where there is one.
pub open spec fn failed_if(record: Record, prefix: Seq<char>, error: Option<String>) -> Record {
    match error {
        Some(e) => record.failed(prefix + e@),
        None => record,
    }
}

/// The error with which a connection over TLS ends where the client has gone.
pub open spec fn is_shutdown(error: Seq<char>) -> bool {
    text::begins_with(error, "error shutting down connection"@)
}

/// What is recorded of an unknown protocol.
pub open spec fn unknown_record(record: Record, first: Seq<u8>) -> Record {
    record.failed("Unknown protocol, read '"@ + hex_list(first) + "' from upgraded connection"@)
}

/// The record of a tunnel at its end, where it is kept: a tunnel that never came to anything is
/// not.
pub open spec fn tunnel_record(record: Record, authority: Seq<char>, end: TunnelEnd) -> Option<
    Record,
> {
    match end {
        TunnelEnd::UpgradeFailed(error) => Some(record.failed("Upgrade error: "@ + error@)),
        TunnelEnd::Http(error) => Some(failed_if(record, "Websocket connect error: "@, error)),
        TunnelEnd::Https(error) => match error {
            Some(e) => if is_shutdown(e@) {
                Some(record)
            } else {
                Some(record.failed("HTTPS connect error: "@ + e@))
            },
            None => Some(record),
        },
        TunnelEnd::Bytes(first, error) => Some(
            failed_if(
                unknown_record(record, first@),
                "Failed to tunnel unknown protocol to "@ + authority + ": "@,
                error,
            ),
        ),
        TunnelEnd::ReadFailed(_)
        | TunnelEnd::ConfigFailed(_)
        | TunnelEnd::AcceptFailed(_)
        | TunnelEnd::Unreachable(..) => None,
    }
}

/// The answer to a request for a tunnel: a tunnel without an authority is a bad request.
pub open spec fn connect_reply(has_authority: bool) -> Reply {
    Reply::bare(
        if has_authority {
            response::OK
        } else {
            response::BAD_REQUEST
        },
    )
}

/// The answer to a request for a tunnel: a tunnel without an authority is a bad request.
pub fn connect_response(has_authority: bool) -> (r: Response)
    ensures
        r@ == connect_reply(has_authority),
        r@ == Reply::bare(
            if has_authority {
                response::OK
            } else {
                response::BAD_REQUEST
            },
        ),
{
    if has_authority {
        Response::bare(response::OK)
    } else {
        Response::bare(response::BAD_REQUEST)
    }
}

fn add_unknown(traffic: &mut Traffic, first: &[u8; 4])
    ensures
        final(traffic)@ == unknown_record(old(traffic)@, first@),
{
    let mut error: String = text::chain("Unknown protocol, read '", write_hex(first).as_str());
    error.append("' from upgraded connection");
    traffic.add_error(error);
}

/// Whether a tunnel at its end is recorded and announced as it is to be.
pub open spec fn ends_tunnel<W>(
    old: Store<W>,
    new: Store<W>,
    notice: Option<TrafficHead>,
    last: Option<Record>,
) -> bool {
    match last {
        Some(record) => {
            &&& new == old.added(record)
            &&& state::notice_view(notice) == exchange::added_notice(old.records, record)
        },
        None => new == old && notice is None,
    }
}

impl<W> Server<W> {
    /// Records a tunnel at its end. The result is the summary to announce.
    pub fn end_tunnel(&mut self, traffic: Traffic, authority: &str, end: TunnelEnd) -> (r: Option<
        TrafficHead,
    >)
        requires
            old(self).wf(),
        ensures
            final(self).wf(),
            *final(self) == (Server { state: final(self).state, ..*old(self) }),
            match tunnel_record(traffic@, authority@, end) {
                Some(record) => {
                    &&& final(self).state@ == old(self).state@.added(record)
                    &&& state::notice_view(r) == exchange::added_notice(
                        old(self).state@.records,
                        record,
                    )
                },
                None => *final(self) == *old(self) && r is None,
            },
            ends_tunnel(
                old(self).state@,
                final(self).state@,
                r,
                tunnel_record(traffic@, authority@, end),
            ),
    {
        let mut traffic: Traffic = traffic;
        match end {
            TunnelEnd::UpgradeFailed(error) => {
                traffic.add_error(text::chain("Upgrade error: ", error.as_str()));
            },
            TunnelEnd::Http(Some(error)) => {
                traffic.add_error(text::chain("Websocket connect error: ", error.as_str()));
            },
            TunnelEnd::Https(Some(error)) => {
                if !text::begins(error.as_str(), "error shutting down connection") {
                    traffic.add_error(text::chain("HTTPS connect error: ", error.as_str()));
                }
            },
            TunnelEnd::Http(None) | TunnelEnd::Https(None) => {},
            TunnelEnd::Bytes(first, error) => {
                add_unknown(&mut traffic, &first);
                match error {
                    Some(error) => {
                        let mut s: String = text::chain(
                            "Failed to tunnel unknown protocol to ",
                            authority,
                        );
                        s.append(": ");
                        s.append(error.as_str());
                        traffic.add_error(s);
                    },
                    None => {},
                }
            },
            TunnelEnd::ReadFailed(_)
            | TunnelEnd::ConfigFailed(_)
            | TunnelEnd::AcceptFailed(_)
            | TunnelEnd::Unreachable(..) => {
                return None;
            },
        }
        self.state.add_traffic(traffic)
    }
}

/// A client speaks TLS exactly where its first two bytes are those of a handshake record, whatever
/// comes behind them, and HTTP exactly where its first four bytes are `GET` and a blank.
pub proof fn law_protocols_are_told_by_their_bytes(first: Seq<u8>)
    requires
        first.len() == 4,
    ensures
        protocol_of(first) == Protocol::Tls <==> first[0] == 0x16 && first[1] == 0x03,
        protocol_of(first) == Protocol::Http <==> first[0] == 71 && first[1] == 69 && first[2] == 84
            && first[3] == 32,
{
    let get = seq![0x47u8, 0x45u8, 0x54u8, 0x20u8];
    if first[0] == 71 && first[1] == 69 && first[2] == 84 && first[3] == 32 {
        assert(first =~= get);
    }
    assert(get[0] == 71 && get[1] == 69 && get[2] == 84 && get[3] == 32);
}

/// What lies behind the first two bytes tells nothing of TLS: all clients that begin alike speak
/// it, or none does.
pub proof fn law_the_length_of_a_record_tells_nothing(first: Seq<u8>, other: Seq<u8>)
    requires
        first.len() == 4,
        other.len() == 4,
        first[0] == other[0],
        first[1] == other[1],
    ensures
        protocol_of(first) == Protocol::Tls <==> protocol_of(other) == Protocol::Tls,
{
    law_protocols_are_told_by_their_bytes(first);
    law_protocols_are_told_by_their_bytes(other);
}

/// A byte is written as two hexadecimal digits, the greater in front, with capitals.
pub proof fn law_bytes_are_written_in_capitals(b: u8)
    ensures
        hex_byte(b).len() == 2,
        hex_byte(b)[0] as int == (if b / 16 < 10 {
            48 + b / 16
        } else {
            55 + b / 16
        }),
        hex_byte(b)[1] as int == (if b % 16 < 10 {
            48 + b % 16
        } else {
            55 + b % 16
        }),
{
    reveal_strlit("0123456789ABCDEF");
}

/// Four bytes are written in brackets, with a comma and a blank between two.
pub proof fn law_bytes_are_listed(a: u8, b: u8, c: u8, d: u8)
    ensures
        hex_list(seq![a, b, c, d]) == seq!['['] + hex_byte(a) + seq![',', ' '] + hex_byte(b)
            + seq![',', ' '] + hex_byte(c) + seq![',', ' '] + hex_byte(d) + seq![']'],
{
    reveal_strlit("[");
    reveal_strlit(", ");
    reveal_strlit("]");
    let bytes = seq![a, b, c, d];
    let parts = Seq::new(bytes.len(), |i: int| hex_byte(bytes[i]));
    let sep = ", "@;
    let three = seq![hex_byte(a), hex_byte(b), hex_byte(c)];
    let two = seq![hex_byte(a), hex_byte(b)];
    assert(parts =~= three + seq![hex_byte(d)]);
    assert(three =~= two + seq![hex_byte(c)]);
    assert(two =~= seq![hex_byte(a)] + seq![hex_byte(b)]);
    text::law_separators_stand_between(seq![hex_byte(a)], seq![hex_byte(b)], hex_byte(a), sep);
    text::law_separators_stand_between(two, seq![hex_byte(c)], hex_byte(b), sep);
    text::law_separators_stand_between(three, seq![hex_byte(d)], hex_byte(c), sep);
    text::law_separators_stand_between(three, seq![hex_byte(d)], hex_byte(d), sep);
    assert(hex_list(bytes) =~= seq!['['] + hex_byte(a) + seq![',', ' '] + hex_byte(b)
        + seq![',', ' '] + hex_byte(c) + seq![',', ' '] + hex_byte(d) + seq![']']);
}

/// The error that an end of a tunnel has, where it has one.
pub open spec fn end_error(end: TunnelEnd) -> Option<Seq<char>> {
    match end {
        TunnelEnd::UpgradeFailed(e)
        | TunnelEnd::ReadFailed(e)
        | TunnelEnd::ConfigFailed(e)
        | TunnelEnd::AcceptFailed(e)
        | TunnelEnd::Unreachable(_, e) => Some(e@),
        TunnelEnd::Http(e) | TunnelEnd::Https(e) | TunnelEnd::Bytes(_, e) => text::optional_text(e),
    }
}

/// A tunnel in which bytes were served is kept, as one is that could not be opened at all; one that
/// failed on the way is not. What is kept is the tunnel as it was, with nothing but errors behind
/// those that it had.
pub proof fn law_tunnels_are_kept_as_they_were(
    record: Record,
    authority: Seq<char>,
    end: TunnelEnd,
)
    ensures
        tunnel_record(record, authority, end) is Some <==> end is UpgradeFailed || end is Http
            || end is Https || end is Bytes,
        tunnel_record(record, authority, end) matches Some(last) ==> {
            &&& last == (Record { errors: last.errors, ..record })
            &&& record.errors.is_prefix_of(last.errors)
            &&& end is Bytes ==> last.errors.len() == record.errors.len() + (if end_error(
                end,
            ) is Some {
                2int
            } else {
                1int
            })
            &&& !(end is Bytes) && end_error(end) is None ==> last.errors == record.errors
        },
{
    match tunnel_record(record, authority, end) {
        Some(last) => {
            assert(record.errors =~= last.errors.subrange(0, record.errors.len() as int));
        },
        None => {},
    }
}

/// The error with which a tunnel ended is told behind the words for what went wrong. Only that a
/// connection over TLS was shut down is not told.
pub proof fn law_tunnel_errors_are_told(
    record: Record,
    authority: Seq<char>,
    first: [u8; 4],
    error: String,
)
    ensures
        tunnel_record(record, authority, TunnelEnd::UpgradeFailed(error))->0.errors
            == record.errors.push("Upgrade error: "@ + error@),
        tunnel_record(record, authority, TunnelEnd::Http(Some(error)))->0.errors
            == record.errors.push("Websocket connect error: "@ + error@),
        tunnel_record(record, authority, TunnelEnd::Https(Some(error)))->0.errors == (
        if "error shutting down connection"@.is_prefix_of(error@) {
            record.errors
        } else {
            record.errors.push("HTTPS connect error: "@ + error@)
        }),
        tunnel_record(record, authority, TunnelEnd::Bytes(first, None))->0.errors
            == record.errors.push(
            "Unknown protocol, read '"@ + hex_list(first@) + "' from upgraded connection"@,
        ),
        tunnel_record(record, authority, TunnelEnd::Bytes(first, Some(error)))->0.errors
            == record.errors.push(
            "Unknown protocol, read '"@ + hex_list(first@) + "' from upgraded connection"@,
        ).push("Failed to tunnel unknown protocol to "@ + authority + ": "@ + error@),
{
    text::law_prefixes_are_letters_in_front(
        error@,
        "error shutting down connection"@,
        Seq::empty(),
    );
}

/// A client that begins with a request is never taken for one that begins a TLS handshake, and the
/// other way round.
pub proof fn law_protocols_exclude_each_other(first: Seq<u8>)
    requires
        first.len() == 4,
    ensures
        first[0] == 0x16 ==> protocol_of(first) != Protocol::Http,
        first[0] == 0x47 ==> protocol_of(first) != Protocol::Tls,
        protocol_of(first) == Protocol::Http ==> first[0] == 0x47,
        protocol_of(first) == Protocol::Tls ==> first[0] == 0x16 && first[1] == 0x03,
{
}

/// A tunnel that the filters have turned down leaves no trace, however it ends: so it is with every
/// tunnel where there are no filters.
pub proof fn law_filtered_tunnels_leave_no_trace<W>(
    store: Store<W>,
    record: Record,
    authority: Seq<char>,
    end: TunnelEnd,
)
    requires
        !record.valid,
    ensures
        tunnel_record(record, authority, end) matches Some(last) ==> store.added(last) == store,
        !record.checked(false).valid,
{
}

/// A request for a tunnel is granted exactly where it names the authority to be reached, and is a
/// bad request where it does not; either answer has nothing but its status.
pub proof fn law_tunnels_need_an_authority(name: Seq<char>)
    ensures
        connect_reply(true).status == 200,
        connect_reply(false).status == 400,
        connect_reply(true).content == response::Content::Empty,
        connect_reply(false).content == response::Content::Empty,
        !connect_reply(true).fields.contains_key(name),
        !connect_reply(false).fields.contains_key(name),
{
}

/// A tunnel that is kept is recorded behind all others and announced under the next number, exactly
/// where the filters let it pass; nothing else changes, and one that is not kept leaves no trace.
pub proof fn law_kept_tunnels_are_recorded<W>(
    old: Store<W>,
    new: Store<W>,
    notice: Option<TrafficHead>,
    last: Option<Record>,
)
    requires
        ends_tunnel(old, new, notice, last),
        old.records.len() < usize::MAX,
    ensures
        last is Some && last->0.valid ==> {
            &&& new.records == old.records.push(last->0)
            &&& notice is Some && notice->0.id == old.records.len() + 1 && notice->0.uri@
                == last->0.uri
        },
        last is None || !last->0.valid ==> new == old && notice is None,
        new.rules == old.rules,
        new.pending == old.pending,
        new.sockets == old.sockets,
{
}

} // verus!
