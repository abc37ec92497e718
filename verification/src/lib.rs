//! A host-agnostic engine for Inter-Blockchain Communication: identifiers and
//! heights, a protocol store, the context interfaces a host chain implements,
//! the client, connection, channel and packet handlers, and a mock host chain
//! for exercising them. The handlers, the store and the mock host carry
//! contracts that Verus proves. A few small functions only hand a call on to
//! code outside the library (a hash, a validator set, the system clock): what
//! their doc comments claim of that code is taken on trust, and
//! `Timestamp::now` promises nothing of the clock's reading.

pub mod height;
pub mod timestamp;
pub mod table;
pub mod identifier;
pub mod commitment;
pub mod error;
pub mod client;
pub mod connection;
pub mod channel;
pub mod path;
pub mod events;
pub mod state;
pub mod context;
pub mod host;
pub mod mock;
pub mod router;
pub mod msgs;
pub mod handler;
pub mod laws;
pub mod query;
pub mod any;
