//! Report lifecycle engine of a DAP aggregator: message vocabulary, report
//! admission, the replay-safe aggregate store, batch coordination and the
//! bounded-concurrency gateway in front of the store.

pub mod messages;
pub mod media;
pub mod error;
pub mod text;
pub mod base64url;
pub mod endpoint;
pub mod config;
pub mod task;
pub mod report;
pub mod shard;
pub mod names;
pub mod hpke;
pub mod admin;
pub mod request;
pub mod cache;
pub mod aggregator;
pub mod job;
pub mod share;
pub mod store;
pub mod store_laws;
pub mod span;
pub mod batch;
pub mod gateway;
pub mod durable;
