//! The handlers of the engine. Each message is handled in two steps:
//! validation, which reads the host's state and may turn the message down,
//! and execution, which changes the state.

pub mod common;
pub mod recv_packet;
pub mod acknowledgement;
pub mod timeout;
pub mod send_packet;
pub mod client;
pub mod connection;
pub mod channel;
pub mod dispatch;
