//! WebSockets between a client and a destination.
use vstd::prelude::*;
use vstd::string::*;

use crate::exchange;
use crate::exchange::Failure;
use crate::message;
use crate::message::{Entry, WebsocketMessage, WsFailure, WsMessage};
use crate::server::Server;
use crate::state;
use crate::state::{State, Store};
use crate::text;
use crate::traffic::{Record, Traffic};
use crate::uri;

verus! {

broadcast use vstd::string::group_string_axioms;

/// What happens to a WebSocket.
#[derive(Debug)]
pub enum RelayEvent {
    /// The connection of the client could not be upgraded.
    UpgradeFailed(String),
    /// The destination could not be reached.
    HandlingFailed(String),
    /// The destination sends a message.
    Upstream(WsMessage),
    /// Reading from the destination fails.
    UpstreamFailed(String),
    /// The destination sends nothing more.
    UpstreamEnded,
    /// A message of the client is to go out to the destination.
    ToUpstream(WsMessage),
    /// It could not be sent.
    UpstreamUnsent(String),
    /// The client sends a message.
    Client(WsMessage),
    /// Reading from the client fails.
    ClientFailed(WsFailure, String),
    /// Sending to the client fails.
    ClientUnsent(WsFailure, String),
    /// Nothing more is to be sent, or the client sends nothing more.
    Ended,
}

/// What a relay does: it announces what was recorded, sends a message on, and stops or goes on.
#[derive(Debug)]
pub struct RelayStep {
    pub news: Option<(usize, WebsocketMessage)>,
    pub forward: Option<WsMessage>,
    pub stop: bool,
}

/// What is recorded of an event. That a client has gone is not.
pub open spec fn relay_entry(event: RelayEvent, now: i128) -> Option<Entry> {
    match event {
        RelayEvent::UpgradeFailed(error) => Some(
            Entry::Error("Failed to upgrade to WebSocket: "@ + error@),
        ),
        RelayEvent::HandlingFailed(error) => Some(
            Entry::Error("Failed to handle WebSocket: "@ + error@),
        ),
        RelayEvent::Upstream(m) => match message::recorded_payload(m) {
            Some(payload) => Some(Entry::Data(now, true, payload)),
            None => None,
        },
        RelayEvent::UpstreamFailed(error) => Some(Entry::Error("Upstream WS error: "@ + error@)),
        RelayEvent::UpstreamEnded => Some(Entry::Error("Upstream WS closed"@)),
        RelayEvent::ToUpstream(_) => None,
        RelayEvent::UpstreamUnsent(error) => Some(
            Entry::Error("Upstream WS send error: "@ + error@),
        ),
        RelayEvent::Client(m) => match message::recorded_payload(m) {
            Some(payload) => Some(Entry::Data(now, false, payload)),
            None => None,
        },
        RelayEvent::ClientFailed(failure, error) => if failure == WsFailure::Other {
            Some(Entry::Error("Client WS error: "@ + error@))
        } else {
            None
        },
        RelayEvent::ClientUnsent(failure, error) => if failure == WsFailure::Other {
            Some(Entry::Error("Client WS send error: "@ + error@))
        } else {
            None
        },
        RelayEvent::Ended => None,
    }
}

/// The message that goes on to the other side. Where one side fails, the other side is closed.
pub open spec fn relay_forward(event: RelayEvent) -> Option<WsMessage> {
    match event {
        RelayEvent::Upstream(m) => Some(m),
        RelayEvent::Client(m) => Some(m),
        RelayEvent::ToUpstream(m) => Some(
            if m is Frame {
                WsMessage::Close(None)
            } else {
                m
            },
        ),
        RelayEvent::UpstreamFailed(_)
        | RelayEvent::UpstreamEnded
        | RelayEvent::ClientFailed(..) => Some(WsMessage::Close(None)),
        _ => None,
    }
}

/// Whether the relay stops: after a message that closes the WebSocket, and after a failure.
pub open spec fn relay_stops(event: RelayEvent) -> bool {
    match event {
        RelayEvent::Upstream(m) => m is Close,
        RelayEvent::Client(m) => m is Close,
        RelayEvent::ToUpstream(_) => false,
        _ => true,
    }
}

/// The state after an entry for a WebSocket, where there is anything to record.
pub open spec fn noted_if<W>(store: Store<W>, id: usize, entry: Option<Entry>) -> Store<W> {
    match entry {
        Some(e) => store.noted(id, e),
        None => store,
    }
}

/// Whether what is announced is what was recorded.
pub open spec fn announces_if<W>(
    news: Option<(usize, WebsocketMessage)>,
    store: Store<W>,
    id: usize,
    entry: Option<Entry>,
) -> bool {
    match entry {
        Some(e) => state::announces(news, id, e, 1 <= id <= store.sockets.len()),
        None => news is None,
    }
}

impl<W> State<W> {
    fn relay_error(&mut self, id: usize, prefix: &str, error: &str) -> (r: Option<
        (usize, WebsocketMessage),
    >)
        requires
            old(self).wf(),
        ensures
            final(self).wf(),
            final(self)@ == old(self)@.noted(id, Entry::Error(prefix@ + error@)),
            state::announces(
                r,
                id,
                Entry::Error(prefix@ + error@),
                1 <= id <= old(self)@.sockets.len(),
            ),
    {
        self.add_websocket_error(id, text::chain(prefix, error))
    }

    /// Takes in what happens to a WebSocket.
    pub fn relay(&mut self, id: usize, event: RelayEvent, now: i128) -> (r: RelayStep)
        requires
            old(self).wf(),
        ensures
            final(self).wf(),
            final(self)@ == noted_if(old(self)@, id, relay_entry(event, now)),
            announces_if(r.news, old(self)@, id, relay_entry(event, now)),
            r.forward == relay_forward(event),
            r.stop == relay_stops(event),
    {
        match event {
            RelayEvent::UpgradeFailed(error) => RelayStep {
                news: self.relay_error(id, "Failed to upgrade to WebSocket: ", error.as_str()),
                forward: None,
                stop: true,
            },
            RelayEvent::HandlingFailed(error) => RelayStep {
                news: self.relay_error(id, "Failed to handle WebSocket: ", error.as_str()),
                forward: None,
                stop: true,
            },
            RelayEvent::Upstream(m) => {
                let stop: bool = m.is_close();
                let news: Option<(usize, WebsocketMessage)> = self.add_websocket_message(
                    id,
                    &m,
                    true,
                    now,
                );
                RelayStep { news, forward: Some(m), stop }
            },
            RelayEvent::UpstreamFailed(error) => RelayStep {
                news: self.relay_error(id, "Upstream WS error: ", error.as_str()),
                forward: Some(WsMessage::Close(None)),
                stop: true,
            },
            RelayEvent::UpstreamEnded => RelayStep {
                news: self.add_websocket_error(id, "Upstream WS closed".to_owned()),
                forward: Some(WsMessage::Close(None)),
                stop: true,
            },
            RelayEvent::ToUpstream(m) => RelayStep {
                news: None,
                forward: Some(message::tungstenite_to_wreq(m)),
                stop: false,
            },
            RelayEvent::UpstreamUnsent(error) => RelayStep {
                news: self.relay_error(id, "Upstream WS send error: ", error.as_str()),
                forward: None,
                stop: true,
            },
            RelayEvent::Client(m) => {
                let news: Option<(usize, WebsocketMessage)> = self.add_websocket_message(
                    id,
                    &m,
                    false,
                    now,
                );
                let stop: bool = m.is_close();
                RelayStep { news, forward: Some(m), stop }
            },
            RelayEvent::ClientFailed(failure, error) => {
                let news: Option<(usize, WebsocketMessage)> =
                    if message::ignore_tungstenite_error(failure) {
                    None
                } else {
                    self.relay_error(id, "Client WS error: ", error.as_str())
                };
                RelayStep { news, forward: Some(WsMessage::Close(None)), stop: true }
            },
            RelayEvent::ClientUnsent(failure, error) => {
                let news: Option<(usize, WebsocketMessage)> =
                    if message::ignore_tungstenite_error(failure) {
                    None
                } else {
                    self.relay_error(id, "Client WS send error: ", error.as_str())
                };
                RelayStep { news, forward: None, stop: true }
            },
            RelayEvent::Ended => RelayStep { news: None, forward: None, stop: true },
        }
    }
}

/// The record of an exchange that was upgraded to the WebSocket with a number.
pub open spec fn upgraded_record(record: Record, now: i128, id: usize) -> Record {
    Record { start_time: Some(now), websocket_id: Some(id), ..record }
}

/// The record of an exchange whose upgrade was refused.
pub open spec fn refused_record(record: Record, now: i128, error: Seq<char>) -> Record {
    (Record { start_time: Some(now), ..record }).failed(
        "Failed to upgrade to websocket, "@ + error,
    )
}

impl<W> Server<W> {
    /// Finds the URI of the WebSocket that an upgrade means, or gives the exchange up. None comes
    /// back where the text is no URI.
    pub fn upgrade_uri(&mut self, traffic: Traffic, uri: &str) -> (r: Option<
        Result<(String, Traffic), Failure>,
    >)
        requires
            old(self).wf(),
        ensures
            final(self).wf(),
            *final(self) == (Server { state: final(self).state, ..*old(self) }),
            match uri::websocket_uri_of(uri@) {
                None => r is None && *final(self) == *old(self),
                Some(Ok(text)) => {
                    &&& r matches Some(Ok((to, t))) && to@ == text && t == traffic
                    &&& *final(self) == *old(self)
                },
                Some(Err(error)) => {
                    let record = traffic@.failed("Invalid uri, "@ + error);
                    &&& r matches Some(Err(failure)) && exchange::fails(
                        failure,
                        record,
                        old(self).state@.records,
                    )
                    &&& final(self).state@ == old(self).state@.added(record)
                },
            },
    {
        match uri::websocket_uri(uri) {
            None => None,
            Some(Ok(to)) => Some(Ok((to, traffic))),
            Some(Err(error)) => Some(
                Err(
                    self.internal_server_error(
                        text::chain("Invalid uri, ", error.as_str()),
                        traffic,
                    ),
                ),
            ),
        }
    }

    /// Upgrades an exchange to a new WebSocket, or gives it up where the request is no proper one.
    pub fn upgrade(&mut self, traffic: Traffic, now: i128, refused: Option<String>) -> (r: Result<
        (Traffic, usize),
        Failure,
    >)
        requires
            old(self).wf(),
        ensures
            final(self).wf(),
            *final(self) == (Server { state: final(self).state, ..*old(self) }),
            match refused {
                None => {
                    &&& r matches Ok((t, id)) && id == old(self).state@.sockets.len() + 1 && t@
                        == (Record {
                        start_time: Some(now),
                        websocket_id: Some(id),
                        ..traffic@
                    })
                    &&& final(self).state@ == (Store {
                        sockets: old(self).state@.sockets.push(Seq::empty()),
                        ..old(self).state@
                    })
                },
                Some(error) => {
                    let record = (Record { start_time: Some(now), ..traffic@ }).failed(
                        "Failed to upgrade to websocket, "@ + error@,
                    );
                    &&& r matches Err(failure) && exchange::fails(
                        failure,
                        record,
                        old(self).state@.records,
                    )
                    &&& final(self).state@ == old(self).state@.added(record)
                },
            },
            refused is None ==> {
                &&& r is Ok
                &&& r->Ok_0.0@ == upgraded_record(traffic@, now, r->Ok_0.1)
                &&& final(self).state@ == old(self).state@.opened()
            },
            refused matches Some(error) ==> final(self).state@ == old(self).state@.added(
                refused_record(traffic@, now, error@),
            ),
    {
        let mut traffic: Traffic = traffic;
        traffic.set_start_time(now);
        match refused {
            None => {
                let id: usize = self.state.new_websocket();
                traffic.set_websocket_id(id);
                Ok((traffic, id))
            },
            Some(error) => Err(
                self.internal_server_error(
                    text::chain("Failed to upgrade to websocket, ", error.as_str()),
                    traffic,
                ),
            ),
        }
    }
}

/// Where one side fails, nothing of it goes on: the other side is closed, and the relay stops.
pub proof fn law_failure_closes_the_other_side(event: RelayEvent)
    requires
        event is UpstreamFailed || event is UpstreamEnded || event is ClientFailed,
    ensures
        relay_forward(event) == Some(WsMessage::Close(None)),
        relay_stops(event),
{
}

/// A message is recorded exactly where it carries text or data, with its payload unchanged and
/// its direction, and it goes on unchanged.
pub proof fn law_messages_are_recorded_as_they_go_on(m: WsMessage, now: i128)
    ensures
        relay_forward(RelayEvent::Upstream(m)) == Some(m),
        relay_forward(RelayEvent::Client(m)) == Some(m),
        relay_entry(RelayEvent::Upstream(m), now) is Some == (m is Text || m is Binary),
        relay_entry(RelayEvent::Client(m), now) is Some == (m is Text || m is Binary),
        m matches WsMessage::Text(s) ==> relay_entry(RelayEvent::Upstream(m), now) == Some(
            Entry::Data(now, true, message::Payload::Text(s@)),
        ),
        m matches WsMessage::Binary(b) ==> relay_entry(RelayEvent::Client(m), now) == Some(
            Entry::Data(now, false, message::Payload::Bytes(b@)),
        ),
{
}

/// A message with a payload is recorded with the time and the direction in which it went, and with
/// its payload unchanged, whether it is text or data: what the client sends goes to the server,
/// what the destination sends goes to the client. No other message is recorded.
pub proof fn law_messages_keep_their_direction(m: WsMessage, now: i128)
    ensures
        relay_entry(RelayEvent::Client(m), now) == (match m {
            WsMessage::Text(s) => Some(Entry::Data(now, false, message::Payload::Text(s@))),
            WsMessage::Binary(b) => Some(Entry::Data(now, false, message::Payload::Bytes(b@))),
            WsMessage::Ping(_)
            | WsMessage::Pong(_)
            | WsMessage::Close(_)
            | WsMessage::Frame => None,
        }),
        relay_entry(RelayEvent::Upstream(m), now) == (match m {
            WsMessage::Text(s) => Some(Entry::Data(now, true, message::Payload::Text(s@))),
            WsMessage::Binary(b) => Some(Entry::Data(now, true, message::Payload::Bytes(b@))),
            WsMessage::Ping(_)
            | WsMessage::Pong(_)
            | WsMessage::Close(_)
            | WsMessage::Frame => None,
        }),
        relay_entry(RelayEvent::ToUpstream(m), now) is None,
{
}

/// The two directions of one message differ in nothing but the direction.
pub proof fn law_directions_are_told_apart(m: WsMessage, now: i128)
    ensures
        match (
            relay_entry(RelayEvent::Client(m), now),
            relay_entry(RelayEvent::Upstream(m), now),
        ) {
            (Some(Entry::Data(t, from_server, p)), Some(Entry::Data(u, from_client, q))) => {
                &&& !from_server
                &&& from_client
                &&& t == now && u == now
                &&& p == q
            },
            (None, None) => true,
            _ => false,
        },
{
}

/// Every failure is recorded as an error, behind the words for what went wrong; only that a client
/// has gone is not.
pub proof fn law_failures_are_recorded(error: String, failure: WsFailure, now: i128)
    ensures
        relay_entry(RelayEvent::UpgradeFailed(error), now) == Some(
            Entry::Error("Failed to upgrade to WebSocket: "@ + error@),
        ),
        relay_entry(RelayEvent::HandlingFailed(error), now) == Some(
            Entry::Error("Failed to handle WebSocket: "@ + error@),
        ),
        relay_entry(RelayEvent::UpstreamFailed(error), now) == Some(
            Entry::Error("Upstream WS error: "@ + error@),
        ),
        relay_entry(RelayEvent::UpstreamUnsent(error), now) == Some(
            Entry::Error("Upstream WS send error: "@ + error@),
        ),
        relay_entry(RelayEvent::UpstreamEnded, now) == Some(Entry::Error("Upstream WS closed"@)),
        relay_entry(RelayEvent::Ended, now) is None,
        relay_entry(RelayEvent::ClientFailed(failure, error), now) == (match failure {
            WsFailure::Other => Some(Entry::Error("Client WS error: "@ + error@)),
            WsFailure::ConnectionClosed
            | WsFailure::AlreadyClosed
            | WsFailure::ResetWithoutClosingHandshake => None,
        }),
        relay_entry(RelayEvent::ClientUnsent(failure, error), now) == (match failure {
            WsFailure::Other => Some(Entry::Error("Client WS send error: "@ + error@)),
            WsFailure::ConnectionClosed
            | WsFailure::AlreadyClosed
            | WsFailure::ResetWithoutClosingHandshake => None,
        }),
{
}

/// A message of the client reaches the destination as it is, but for a raw frame, which closes the
/// connection. Nothing else is sent on but what a side has sent, and a close where a side has
/// failed.
pub proof fn law_relays_send_on(event: RelayEvent, m: WsMessage)
    ensures
        relay_forward(RelayEvent::ToUpstream(m)) == (match m {
            WsMessage::Frame => Some(WsMessage::Close(None)),
            WsMessage::Text(_)
            | WsMessage::Binary(_)
            | WsMessage::Ping(_)
            | WsMessage::Pong(_)
            | WsMessage::Close(_) => Some(m),
        }),
        relay_forward(event) is None <==> event is UpgradeFailed || event is HandlingFailed
            || event is UpstreamUnsent || event is ClientUnsent || event is Ended,
{
}

/// A relay goes on as long as messages come that do not close the WebSocket; after everything else
/// it stops.
pub proof fn law_relays_stop_at_the_end(event: RelayEvent)
    ensures
        !relay_stops(event) <==> (event matches RelayEvent::Upstream(m) && !(m is Close)) || (
        event matches RelayEvent::Client(m) && !(m is Close)) || event is ToUpstream,
{
}

/// What a WebSocket is recorded to have had happen to it comes behind what was recorded before, and
/// is what is announced, under the number of the WebSocket; nothing is recorded of another one, and
/// nothing at all where there is no such WebSocket.
pub proof fn law_events_are_recorded_in_order<W>(
    store: Store<W>,
    id: usize,
    entry: Option<Entry>,
    news: Option<(usize, WebsocketMessage)>,
    other: int,
)
    requires
        announces_if(news, store, id, entry),
        0 <= other < store.sockets.len(),
    ensures
        noted_if(store, id, entry) == (Store {
            sockets: noted_if(store, id, entry).sockets,
            ..store
        }),
        noted_if(store, id, entry).sockets.len() == store.sockets.len(),
        other != id - 1 || entry is None ==> noted_if(store, id, entry).sockets[other]
            == store.sockets[other],
        entry is Some && 1 <= id <= store.sockets.len() ==> {
            let before = store.sockets[id - 1];
            let after = noted_if(store, id, entry).sockets[id - 1];
            &&& after.len() == before.len() + 1
            &&& after.last() == entry->0
            &&& after.drop_last() == before
            &&& news matches Some((n, m)) && n == id && m@ == entry->0
        },
        entry is None || !(1 <= id <= store.sockets.len()) ==> news is None,
{
    if 1 <= id <= store.sockets.len() && entry is Some {
        assert(noted_if(store, id, entry).sockets[id - 1].drop_last() =~= store.sockets[id - 1]);
    }
}

/// An upgraded exchange is recorded with its WebSocket and with when it began, and a refused one
/// with the error and with when it began; nothing else of either changes.
pub proof fn law_upgrades_are_recorded(record: Record, now: i128, id: usize, error: Seq<char>)
    ensures
        upgraded_record(record, now, id).websocket_id == Some(id),
        upgraded_record(record, now, id).start_time == Some(now),
        upgraded_record(record, now, id) == (Record {
            start_time: upgraded_record(record, now, id).start_time,
            websocket_id: upgraded_record(record, now, id).websocket_id,
            ..record
        }),
        refused_record(record, now, error).websocket_id == record.websocket_id,
        refused_record(record, now, error).start_time == Some(now),
        refused_record(record, now, error).errors == record.errors.push(
            "Failed to upgrade to websocket, "@ + error,
        ),
        refused_record(record, now, error) == (Record {
            start_time: refused_record(record, now, error).start_time,
            errors: refused_record(record, now, error).errors,
            ..record
        }),
{
}

} // verus!
