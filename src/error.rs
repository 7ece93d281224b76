use vstd::prelude::*;
use vstd::string::*;

verus! {

/// Failures reported by the session commands.
#[derive(Debug, Clone, PartialEq, Eq)]
pub enum MqttError {
    /// A connection is already held by the session.
    AlreadyConnected,
    /// The command needs a connection and none is held.
    NotConnected,
    /// The requested QoS level is not 0, 1 or 2.
    InvalidQos,
    /// The transport refused or failed the request; the text describes it.
    Transport(String),
}

/// The human-readable text of an error, as shown to the user.
pub open spec fn error_text(e: MqttError) -> Seq<char> {
    match e {
        MqttError::AlreadyConnected => "Already connected."@,
        MqttError::NotConnected => "Not connected to MQTT broker."@,
        MqttError::InvalidQos => "Invalid QoS level. Use 0, 1, or 2."@,
        MqttError::Transport(s) => s@,
    }
}

impl MqttError {
    /// The text shown to the user for this error.
    pub fn message(&self) -> (r: String)
        ensures
            r@ == error_text(*self),
    {
        match self {
            MqttError::AlreadyConnected => String::from_str("Already connected."),
            MqttError::NotConnected => String::from_str("Not connected to MQTT broker."),
            MqttError::InvalidQos => String::from_str("Invalid QoS level. Use 0, 1, or 2."),
            MqttError::Transport(s) => s.clone(),
        }
    }
}

/// `prefix` followed by `detail`: the text of a transport failure.
pub fn transport_error(prefix: &str, detail: &String) -> (r: MqttError)
    ensures
        r is Transport,
        r->Transport_0@ == prefix@ + detail@,
{
    let mut s = String::from_str(prefix);
    s.append(detail.as_str());
    MqttError::Transport(s)
}

} // verus!
