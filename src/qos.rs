use crate::error::MqttError;
use vstd::prelude::*;

verus! {

/// MQTT delivery guarantee.
#[derive(Debug, Clone, Copy, PartialEq, Eq, Structural)]
pub enum Qos {
    /// Level 0: delivered at most once.
    AtMostOnce,
    /// Level 1: delivered at least once.
    AtLeastOnce,
    /// Level 2: delivered exactly once.
    ExactlyOnce,
}

/// The numeric level of a QoS value.
pub open spec fn spec_level(q: Qos) -> u8 {
    match q {
        Qos::AtMostOnce => 0,
        Qos::AtLeastOnce => 1,
        Qos::ExactlyOnce => 2,
    }
}

/// What a numeric level denotes: one of the three QoS values, or `InvalidQos`.
pub open spec fn qos_of_level(level: u8) -> Result<Qos, MqttError> {
    if level == 0 {
        Ok(Qos::AtMostOnce)
    } else if level == 1 {
        Ok(Qos::AtLeastOnce)
    } else if level == 2 {
        Ok(Qos::ExactlyOnce)
    } else {
        Err(MqttError::InvalidQos)
    }
}

/// Parses a numeric QoS level; only 0, 1 and 2 are valid.
pub fn qos_from_level(level: u8) -> (r: Result<Qos, MqttError>)
    ensures
        r == qos_of_level(level),
        r is Ok <==> level <= 2,
        r is Ok ==> spec_level(r->Ok_0) == level,
{
    match level {
        0 => Ok(Qos::AtMostOnce),
        1 => Ok(Qos::AtLeastOnce),
        2 => Ok(Qos::ExactlyOnce),
        _ => Err(MqttError::InvalidQos),
    }
}

impl Qos {
    /// The numeric level (0, 1 or 2).
    pub fn level(&self) -> (r: u8)
        ensures
            r == spec_level(*self),
            r <= 2,
    {
        match self {
            Qos::AtMostOnce => 0,
            Qos::AtLeastOnce => 1,
            Qos::ExactlyOnce => 2,
        }
    }
}

} // verus!
