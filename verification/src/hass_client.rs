//! The decisions of the websocket connection: where to connect, and what the
//! writer, the reader, the request forwarder and the reconnecting supervisor do
//! with what each of them observes. The caller performs the I/O.

use crate::config::Config;
use crate::model::{HassRequest, HassResponse};
use vstd::prelude::*;

verus! {

/// Seconds without a request after which the writer pings the server.
pub const PING_AFTER_SECS: u64 = 10;

/// Seconds without a frame from the server after which the reader gives up on the
/// connection.
pub const READ_TIMEOUT_SECS: u64 = 20;

/// Seconds to wait before connecting again.
pub const RECONNECT_PAUSE_SECS: u64 = 5;

/// The URL that the parser makes of `text`, in its serialized form; `None` when
/// `text` is no URL.
pub uninterp spec fn url_parse(text: Seq<char>) -> Option<Seq<char>>;

/// Calls `url::Url::parse` on `text` and returns the serialization of the URL.
/// The contract ties the result to `text` through `url_parse`; what the URL standard
/// accepts is left to that name.
#[verifier::external_body]
fn parse_url(text: &str) -> (r: Option<String>)
    ensures
        match r {
            Some(u) => url_parse(text@) == Some(u@),
            None => url_parse(text@) is None,
        },
{
    match url::Url::parse(text) {
        Ok(u) => Some(String::from(u)),
        Err(_) => None,
    }
}

/// The URL of the server's websocket API, as the parser reads the configured address
/// followed by `/api/websocket`; `None` when that is no URL.
pub fn websocket_endpoint(config: &Config) -> (r: Option<String>)
    ensures
        match r {
            Some(u) => url_parse(config.url@ + "/api/websocket"@) == Some(u@),
            None => url_parse(config.url@ + "/api/websocket"@) is None,
        },
{
    let text = config.websocket_url();
    parse_url(text.as_str())
}

/// What the writer of the connection observed.
pub enum TxEvent {
    /// A request arrived to be sent.
    Request(HassRequest),
    /// The channel of requests closed.
    Closed,
    /// No request arrived for `PING_AFTER_SECS` seconds.
    Idle,
    /// A frame was written to the socket.
    Written,
    /// Writing a frame to the socket failed.
    WriteFailed,
    /// A request could not be turned into JSON text.
    NotSerializable,
}

/// What the writer does next.
pub enum TxAction {
    /// Write the request as a text frame.
    SendText(HassRequest),
    /// Write a ping frame.
    SendPing,
    /// Wait for the next request.
    Continue,
    /// Stop writing and cancel the connection.
    Stop,
}

/// The writer's decision: send what arrives, ping when idle, go on past a request
/// that cannot be written as JSON, and stop when the requests end or the socket fails.
pub fn tx_next(event: TxEvent) -> (r: TxAction)
    ensures
        match event {
            TxEvent::Request(req) => r == TxAction::SendText(req),
            TxEvent::Idle => r is SendPing,
            TxEvent::Written | TxEvent::NotSerializable => r is Continue,
            TxEvent::Closed | TxEvent::WriteFailed => r is Stop,
        },
{
    match event {
        TxEvent::Request(req) => TxAction::SendText(req),
        TxEvent::Idle => TxAction::SendPing,
        TxEvent::Written => TxAction::Continue,
        TxEvent::NotSerializable => TxAction::Continue,
        TxEvent::Closed => TxAction::Stop,
        TxEvent::WriteFailed => TxAction::Stop,
    }
}

/// What the reader of the connection observed.
pub enum RxEvent {
    /// A text frame arrived.
    Text(String),
    /// A text frame was read as a message of the server.
    Decoded(HassResponse),
    /// A text frame was no message of the server.
    Undecodable,
    /// A ping frame arrived.
    Ping,
    /// A pong frame arrived.
    Pong,
    /// The server closed the connection.
    Close,
    /// A frame of another kind arrived.
    OtherFrame,
    /// Reading from the socket failed.
    Error,
    /// The socket has no more frames.
    Ended,
    /// No frame arrived for `READ_TIMEOUT_SECS` seconds.
    TimedOut,
    /// The connection was cancelled.
    Cancelled,
}

/// What the reader does next.
pub enum RxAction {
    /// Read the text as a message of the server.
    Decode(String),
    /// Hand the message to the client.
    Forward(HassResponse),
    /// Go on reading.
    Ignore,
    /// Cancel the connection, then go on until the cancellation is seen.
    Cancel,
    /// Stop reading and cancel the connection.
    Stop,
}

/// The reader's decision: decode text and forward what decodes, pass over other
/// frames, stop when the server closes or the connection is cancelled, and cancel the
/// connection when the socket fails, ends or stays silent too long.
pub fn rx_next(event: RxEvent) -> (r: RxAction)
    ensures
        match event {
            RxEvent::Text(t) => r == RxAction::Decode(t),
            RxEvent::Decoded(m) => r == RxAction::Forward(m),
            RxEvent::Undecodable | RxEvent::Ping | RxEvent::Pong | RxEvent::OtherFrame => r is Ignore,
            RxEvent::Error | RxEvent::Ended | RxEvent::TimedOut => r is Cancel,
            RxEvent::Close | RxEvent::Cancelled => r is Stop,
        },
{
    match event {
        RxEvent::Text(t) => RxAction::Decode(t),
        RxEvent::Decoded(m) => RxAction::Forward(m),
        RxEvent::Undecodable => RxAction::Ignore,
        RxEvent::Ping => RxAction::Ignore,
        RxEvent::Pong => RxAction::Ignore,
        RxEvent::OtherFrame => RxAction::Ignore,
        RxEvent::Error => RxAction::Cancel,
        RxEvent::Ended => RxAction::Cancel,
        RxEvent::TimedOut => RxAction::Cancel,
        RxEvent::Close => RxAction::Stop,
        RxEvent::Cancelled => RxAction::Stop,
    }
}

/// What the request forwarder of a connection observed. The forwarder passes the
/// client's requests on to the writer of the current connection, so that the client
/// keeps one channel across reconnections.
pub enum ForwardEvent {
    Request(HassRequest),
    /// The client's channel of requests closed.
    Closed,
    /// The connection was cancelled.
    Cancelled,
}

/// What the forwarder does next.
pub enum ForwardAction {
    Forward(HassRequest),
    Stop,
}

/// The forwarder's decision: pass each request on, and stop when the requests end or
/// the connection is cancelled.
pub fn forward_next(event: ForwardEvent) -> (r: ForwardAction)
    ensures
        match event {
            ForwardEvent::Request(req) => r == ForwardAction::Forward(req),
            _ => r is Stop,
        },
{
    match event {
        ForwardEvent::Request(req) => ForwardAction::Forward(req),
        ForwardEvent::Closed => ForwardAction::Stop,
        ForwardEvent::Cancelled => ForwardAction::Stop,
    }
}

/// What the supervisor of the connection observed.
pub enum ConnectionEvent {
    /// The websocket connection was established.
    Connected,
    /// Connecting failed.
    ConnectFailed,
    /// A connection ended; `forwarder_returned` tells whether its request forwarder
    /// handed the client's channel of requests back.
    Ended { forwarder_returned: bool },
}

/// What the supervisor does next.
pub enum ConnectionAction {
    /// Run the reader, the writer and the forwarder on the new connection.
    Run,
    /// Wait `RECONNECT_PAUSE_SECS` seconds, then connect again.
    Reconnect,
    /// Give up: the client's channel of requests is lost.
    Stop,
}

/// The supervisor's decision: run a connection once it is up, connect again after a
/// pause when connecting fails or a connection ends, and stop only when the channel
/// of requests could not be taken back from a finished connection.
pub fn connection_next(event: ConnectionEvent) -> (r: ConnectionAction)
    ensures
        match event {
            ConnectionEvent::Connected => r is Run,
            ConnectionEvent::ConnectFailed => r is Reconnect,
            ConnectionEvent::Ended { forwarder_returned } => if forwarder_returned {
                r is Reconnect
            } else {
                r is Stop
            },
        },
{
    match event {
        ConnectionEvent::Connected => ConnectionAction::Run,
        ConnectionEvent::ConnectFailed => ConnectionAction::Reconnect,
        ConnectionEvent::Ended { forwarder_returned } => if forwarder_returned {
            ConnectionAction::Reconnect
        } else {
            ConnectionAction::Stop
        },
    }
}

} // verus!
