use vstd::prelude::*;
use vstd::string::*;
use vstd::utf8::{decode_utf8, valid_utf8};

verus! {

/// Status carried by a connection notification.
#[derive(Debug, Clone, Copy, PartialEq, Eq, Structural)]
pub enum ConnectionStatus {
    Connected,
    Disconnected,
    Error,
}

impl ConnectionStatus {
    /// The wire name of the status.
    pub fn as_str(&self) -> (r: &'static str)
        ensures
            r@ == status_name(*self),
    {
        match self {
            ConnectionStatus::Connected => "connected",
            ConnectionStatus::Disconnected => "disconnected",
            ConnectionStatus::Error => "error",
        }
    }
}

/// The wire name of a status.
pub open spec fn status_name(s: ConnectionStatus) -> Seq<char> {
    match s {
        ConnectionStatus::Connected => "connected"@,
        ConnectionStatus::Disconnected => "disconnected"@,
        ConnectionStatus::Error => "error"@,
    }
}

/// A change of the connection's status.
#[derive(Debug, Clone, PartialEq, Eq)]
pub struct ConnectionEvent {
    pub message: String,
    pub status: ConnectionStatus,
}

/// A message received from the broker.
#[derive(Debug, Clone, PartialEq, Eq)]
pub struct MessageEvent {
    pub topic: String,
    pub payload: String,
}

/// A subscription that was requested successfully.
#[derive(Debug, Clone, PartialEq, Eq)]
pub struct SubscriptionEvent {
    pub topic: String,
    pub qos: u8,
}

/// Everything the session announces to the user interface.
#[derive(Debug, Clone, PartialEq, Eq)]
pub enum Notification {
    Connection(ConnectionEvent),
    Message(MessageEvent),
    Subscription(SubscriptionEvent),
}

/// The mathematical content of a notification.
pub enum NotificationView {
    Connection { message: Seq<char>, status: ConnectionStatus },
    Message { topic: Seq<char>, payload: Seq<char> },
    Subscription { topic: Seq<char>, qos: u8 },
}

impl View for ConnectionEvent {
    type V = NotificationView;

    open spec fn view(&self) -> NotificationView {
        NotificationView::Connection { message: self.message@, status: self.status }
    }
}

impl View for Notification {
    type V = NotificationView;

    open spec fn view(&self) -> NotificationView {
        match self {
            Notification::Connection(c) => c@,
            Notification::Message(m) => NotificationView::Message {
                topic: m.topic@,
                payload: m.payload@,
            },
            Notification::Subscription(s) => NotificationView::Subscription {
                topic: s.topic@,
                qos: s.qos,
            },
        }
    }
}

/// The character of a decimal digit.
pub open spec fn digit_char(d: nat) -> char {
    seq!['0', '1', '2', '3', '4', '5', '6', '7', '8', '9'][d as int]
}

/// The decimal writing of a natural number, without sign or leading zeros.
pub open spec fn decimal(n: nat) -> Seq<char>
    decreases n,
{
    if n < 10 {
        seq![digit_char(n)]
    } else {
        decimal(n / 10).push(digit_char(n % 10))
    }
}

/// The text shown in place of a payload that is not UTF-8.
pub open spec fn binary_placeholder(len: nat) -> Seq<char> {
    "<Binary data: "@ + decimal(len) + " bytes>"@
}

/// The text of a received payload: the payload decoded as UTF-8 when it is
/// valid UTF-8, the placeholder that gives its length in bytes otherwise.
pub open spec fn payload_text(bytes: Seq<u8>) -> Seq<char> {
    if valid_utf8(bytes) {
        decode_utf8(bytes)
    } else {
        binary_placeholder(bytes.len())
    }
}

/// Relies on `String::from_utf8`: `Ok` with the decoded text exactly when the
/// bytes are valid UTF-8.
#[verifier::external_body]
fn utf8_string(bytes: Vec<u8>) -> (r: Option<String>)
    ensures
        r is Some <==> valid_utf8(bytes@),
        r is Some ==> r->Some_0@ == decode_utf8(bytes@),
{
    String::from_utf8(bytes).ok()
}

/// Relies on `usize`'s `Display` (through `to_string`): the decimal writing.
#[verifier::external_body]
fn decimal_string(n: usize) -> (r: String)
    ensures
        r@ == decimal(n as nat),
{
    n.to_string()
}

/// The placeholder text for a binary payload of `len` bytes.
pub fn binary_payload_text(len: usize) -> (r: String)
    ensures
        r@ == binary_placeholder(len as nat),
{
    let mut s = String::from_str("<Binary data: ");
    let n = decimal_string(len);
    s.append(n.as_str());
    s.append(" bytes>");
    s
}

/// Builds the text of a payload from its decoding: the decoded text when
/// there is one, else the placeholder for `len` bytes.
pub fn payload_from_decoded(decoded: Option<String>, len: usize) -> (r: String)
    ensures
        decoded is Some ==> r@ == decoded->Some_0@,
        decoded is None ==> r@ == binary_placeholder(len as nat),
{
    match decoded {
        Some(s) => s,
        None => binary_payload_text(len),
    }
}

/// The text of a received payload.
pub fn decode_payload(bytes: &Vec<u8>) -> (r: String)
    ensures
        r@ == payload_text(bytes@),
{
    let len = bytes.len();
    let decoded = utf8_string(bytes.clone());
    payload_from_decoded(decoded, len)
}

/// The notification for a message received on `topic` with raw `payload`.
pub fn message_event(topic: &String, payload: &Vec<u8>) -> (r: Notification)
    ensures
        r@ == (NotificationView::Message { topic: topic@, payload: payload_text(payload@) }),
{
    Notification::Message(MessageEvent { topic: topic.clone(), payload: decode_payload(payload) })
}

/// A connection notification whose message is `prefix` followed by `detail`.
pub fn connection_event_with(prefix: &str, detail: &String, status: ConnectionStatus) -> (r:
    ConnectionEvent)
    ensures
        r.message@ == prefix@ + detail@,
        r.status == status,
{
    let mut message = String::from_str(prefix);
    message.append(detail.as_str());
    ConnectionEvent { message, status }
}

/// A connection notification with a fixed message.
pub fn connection_event(message: &str, status: ConnectionStatus) -> (r: ConnectionEvent)
    ensures
        r.message@ == message@,
        r.status == status,
{
    ConnectionEvent { message: String::from_str(message), status }
}

} // verus!
