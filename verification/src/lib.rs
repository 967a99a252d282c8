//! A DNS-over-HTTPS forwarding resolver: request keys, the static table of
//! local domains, the bounded TTL cache of upstream responses, TTL
//! arithmetic, and the per-request decisions of the resolver.

pub mod cache;
pub mod client;
pub mod config;
pub mod framing;
pub mod localdomain;
pub mod message;
pub mod metrics;
pub mod proxy;
pub mod request_key;
pub mod ttl;
