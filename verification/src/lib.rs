//! A connectionless client transport: a datagram socket seen as a stream of
//! messages, each tagged with the address it came from.

pub mod address;
pub mod error;
pub mod laws;
pub mod message;
pub mod stream;
pub mod text;
