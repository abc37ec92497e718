//! A mock host chain: a protocol store, a history of made-up blocks, and the
//! means to set both up for a test.

pub mod store;
pub mod context;
pub mod host_context;
pub mod builders;
pub mod deliver;
pub mod query;
