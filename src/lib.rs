//! Session manager for a single MQTT broker connection: command validation,
//! session-state transitions, the receive-loop state machine and the shape of
//! the notifications sent to the user interface.
pub mod error;
pub mod qos;
pub mod events;
pub mod receive_loop;
pub mod connect;
pub mod session;
