//! A DNS-over-HTTPS forwarding gateway.
//!
//! An inbound HTTP request that carries a DNS query in one of three shapes is
//! classified, rewritten into the request that a fixed upstream resolver
//! expects, and the resolver's answer is relayed back unchanged. Everything
//! here works on plain values; the surrounding program does the I/O.

pub mod builder;
pub mod classify;
pub mod consts;
pub mod gateway;
pub mod headers;
pub mod message;
pub mod query;
pub mod relay;
pub mod text;
