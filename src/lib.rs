//! Client library for a conversational and workflow AI service.
//!
//! The library holds the protocol logic of the client: the endpoint paths and
//! the checks made before a request leaves, the reconciliation of a response
//! body into a typed value or a service error, the decoding of a server-sent
//! event stream into tagged events, and the ordered, fail-fast collection of
//! what a caller projects out of those events.
pub mod api;
pub mod client;
pub mod driver;
pub mod error;
pub mod json;
pub mod prepare;
pub mod request;
pub mod response;
pub mod sse;
pub mod text;
pub mod upload;

pub use api::ApiPath;
pub use client::Config;
pub use error::ClientError;
