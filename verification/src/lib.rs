//! An embeddable mock HTTP endpoint: requests are resolved against an ordered
//! chain of responders, one of which can proxy to a real upstream, record the
//! exchanges and have them replayed later.
//!
//! This crate holds the resolution pipeline: the request and response model,
//! the matching rules, the responders and the dispatch engine. Sockets, files
//! and the network are left to the embedding program.

pub mod dispatch;
pub mod json;
pub mod mocks;
pub mod models;
pub mod server;
mod text;
pub mod wire;

pub use crate::dispatch::{dispatch, router, Dispatch, ResultType, Step};
pub use crate::server::MockServer;
