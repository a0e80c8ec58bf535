//! A remote memory service: a server-side region allocator with strict
//! bounds and lifetime checking, the wire-level request/response shapes and
//! error taxonomy shared by client and server, the client-side decoding of
//! responses and transport statuses, and a key-value layer that stores each
//! entry as one region holding the key bytes followed by the value bytes.
//!
//! The network transport itself is not part of this library; the dispatch
//! and decoding logic here is written against the wire shapes alone, so a
//! caller can drive it from any transport.

pub mod bytes;
pub mod client;
pub mod errors;
pub mod kv;
pub mod memory;
pub mod protocol;
pub mod rpc;
