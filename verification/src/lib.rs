//! Verified core of a request/response and event bus that carries
//! MessagePack-encoded calls between modules over named queues.
use vstd::prelude::*;

pub mod protocol;
pub mod wire;
mod msgpack;
pub mod table;
pub mod server;
pub mod client;
pub mod demo;
pub mod interface;
pub mod laws;
