//! WebSocket messages: as they travel, and as they are recorded.
use vstd::prelude::*;
use vstd::string::*;

use crate::headers;

verus! {

broadcast use vstd::string::group_string_axioms;

/// Why a WebSocket is closed.
#[derive(Debug)]
pub struct CloseFrame {
    pub code: u16,
    pub reason: String,
}

/// A message as it travels. `Frame` is a raw frame, which a peer never hands on.
#[derive(Debug)]
pub enum WsMessage {
    Text(String),
    Binary(Vec<u8>),
    Ping(Vec<u8>),
    Pong(Vec<u8>),
    Close(Option<CloseFrame>),
    Frame,
}

impl WsMessage {
    /// Whether the message closes the WebSocket.
    pub fn is_close(&self) -> (r: bool)
        ensures
            r == (self is Close),
    {
        match self {
            WsMessage::Close(_) => true,
            _ => false,
        }
    }
}

/// The message that goes on to the destination in place of one from the client: a raw frame closes
/// the connection, every other message goes on as it is.
pub fn tungstenite_to_wreq(msg: WsMessage) -> (r: WsMessage)
    ensures
        r == (if msg is Frame {
            WsMessage::Close(None)
        } else {
            msg
        }),
{
    match msg {
        WsMessage::Frame => WsMessage::Close(None),
        other => other,
    }
}

/// What went wrong with a client's WebSocket.
#[derive(Clone, Copy, Debug, PartialEq, Eq, Structural)]
pub enum WsFailure {
    ConnectionClosed,
    AlreadyClosed,
    ResetWithoutClosingHandshake,
    Other,
}

/// Whether a failure only tells that the client has gone, and is not worth a record.
pub fn ignore_tungstenite_error(failure: WsFailure) -> (r: bool)
    ensures
        r == (failure != WsFailure::Other),
{
    match failure {
        WsFailure::ConnectionClosed
        | WsFailure::AlreadyClosed
        | WsFailure::ResetWithoutClosingHandshake => true,
        WsFailure::Other => false,
    }
}

/// The payload of a recorded message.
#[derive(Debug)]
pub enum Body {
    Text(String),
    Bytes(Vec<u8>),
}

/// What a payload holds.
pub enum Payload {
    Text(Seq<char>),
    Bytes(Seq<u8>),
}

impl View for Body {
    type V = Payload;

    open spec fn view(&self) -> Payload {
        match self {
            Body::Text(s) => Payload::Text(s@),
            Body::Bytes(b) => Payload::Bytes(b@),
        }
    }
}

impl Clone for Body {
    fn clone(&self) -> (r: Self)
        ensures
            r@ == self@,
    {
        match self {
            Body::Text(s) => Body::Text(s.clone()),
            Body::Bytes(b) => Body::Bytes(headers::copy_bytes(b)),
        }
    }
}

/// A recorded message with its time and its direction.
#[derive(Debug)]
pub struct WebsocketData {
    pub create: i128,
    pub server_to_client: bool,
    pub body: Body,
}

/// What is recorded of a WebSocket.
#[derive(Debug)]
pub enum WebsocketMessage {
    Error(String),
    Data(WebsocketData),
}

/// What a record of a WebSocket holds.
pub enum Entry {
    Error(Seq<char>),
    Data(i128, bool, Payload),
}

impl View for WebsocketMessage {
    type V = Entry;

    open spec fn view(&self) -> Entry {
        match self {
            WebsocketMessage::Error(s) => Entry::Error(s@),
            WebsocketMessage::Data(d) => Entry::Data(d.create, d.server_to_client, d.body@),
        }
    }
}

impl Clone for WebsocketMessage {
    fn clone(&self) -> (r: Self)
        ensures
            r@ == self@,
    {
        match self {
            WebsocketMessage::Error(s) => WebsocketMessage::Error(s.clone()),
            WebsocketMessage::Data(d) => WebsocketMessage::Data(
                WebsocketData {
                    create: d.create,
                    server_to_client: d.server_to_client,
                    body: d.body.clone(),
                },
            ),
        }
    }
}

/// The contents of a list of records of a WebSocket.
pub open spec fn entries(list: Seq<WebsocketMessage>) -> Seq<Entry> {
    Seq::new(list.len(), |i: int| list[i]@)
}

/// The payload that is recorded of a message: that of text and of binary data, and none of the
/// messages that only keep or end the connection.
pub open spec fn recorded_payload(message: WsMessage) -> Option<Payload> {
    match message {
        WsMessage::Text(s) => Some(Payload::Text(s@)),
        WsMessage::Binary(b) => Some(Payload::Bytes(b@)),
        _ => None,
    }
}

/// The payload that is recorded of a message.
pub fn recorded_body(message: &WsMessage) -> (r: Option<Body>)
    ensures
        match r {
            Some(body) => recorded_payload(*message) == Some(body@),
            None => recorded_payload(*message) is None,
        },
{
    match message {
        WsMessage::Text(s) => Some(Body::Text(s.clone())),
        WsMessage::Binary(b) => Some(Body::Bytes(headers::copy_bytes(b))),
        _ => None,
    }
}

/// A copy of a list of records.
pub(crate) fn copy_entries(list: &Vec<WebsocketMessage>) -> (r: Vec<WebsocketMessage>)
    ensures
        entries(r@) == entries(list@),
{
    let mut r: Vec<WebsocketMessage> = Vec::new();
    let mut i: usize = 0;
    while i < list.len()
        invariant
            i <= list@.len(),
            r@.len() == i,
            forall|j: int| 0 <= j < i ==> (#[trigger] r@[j])@ == list@[j]@,
        decreases list@.len() - i,
    {
        r.push(list[i].clone());
        i = i + 1;
    }
    proof {
        assert(entries(r@) =~= entries(list@));
    }
    r
}

/// What is recorded of a WebSocket holds the error, or the time, the direction and the payload.
pub proof fn law_entries_hold_the_message(error: String, data: WebsocketData)
    ensures
        WebsocketMessage::Error(error)@ == Entry::Error(error@),
        WebsocketMessage::Data(data)@ == Entry::Data(
            data.create,
            data.server_to_client,
            match data.body {
                Body::Text(s) => Payload::Text(s@),
                Body::Bytes(b) => Payload::Bytes(b@),
            },
        ),
{
}

/// Of a message exactly its text or its data is recorded, unchanged; pings, pongs, closes and raw
/// frames have none.
pub proof fn law_payloads_are_recorded_unchanged(message: WsMessage)
    ensures
        match message {
            WsMessage::Text(s) => recorded_payload(message) == Some(Payload::Text(s@)),
            WsMessage::Binary(b) => recorded_payload(message) == Some(Payload::Bytes(b@)),
            WsMessage::Ping(_) | WsMessage::Pong(_) | WsMessage::Close(_) | WsMessage::Frame => {
                recorded_payload(message) is None
            },
        },
{
}

} // verus!
