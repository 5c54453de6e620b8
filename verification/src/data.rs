//! The resources of the service and the payloads of its requests.

pub mod autumn;
pub mod channel;
pub mod internal;
pub mod message;
pub mod server;
pub mod user;
