//! Typed, verified binding for the REST interface of a chat service.
//!
//! The crate models the service's JSON resources, encodes request payloads,
//! decodes response bodies and builds one request per endpoint. Sending the
//! request is left to the caller.

pub mod client;
pub mod data;
pub mod error;
pub mod json;
pub mod text;
pub mod wire;

pub use client::RevoltRs;
pub use error::RevoltRsError;
