//! Counters of what the resolver did. A counter only grows, and stays at its
//! greatest value once it has reached it.

use vstd::prelude::*;

verus! {

/// A counter after one more event.
pub open spec fn counted(n: u64) -> u64 {
    if n < u64::MAX { (n + 1) as u64 } else { n }
}

/// The resolver's counters.
#[derive(Debug, Clone, Copy, PartialEq, Eq, Structural)]
pub struct Metrics {
    pub cache_hits: u64,
    pub cache_misses: u64,
    pub udp_requests: u64,
    pub tcp_requests: u64,
    pub upstream_errors: u64,
}

/// Adds one to a counter that is below its greatest value.
pub fn count_one(n: u64) -> (r: u64)
    ensures
        r == counted(n),
        r >= n,
{
    if n < u64::MAX { n + 1 } else { n }
}

impl Metrics {
    /// All counters at zero.
    pub fn new() -> (r: Self)
        ensures
            r == (Metrics { cache_hits: 0, cache_misses: 0, udp_requests: 0, tcp_requests: 0, upstream_errors: 0 }),
    {
        Metrics { cache_hits: 0, cache_misses: 0, udp_requests: 0, tcp_requests: 0, upstream_errors: 0 }
    }

    /// Counts a request answered from the cache.
    pub fn increment_cache_hits(&mut self)
        ensures
            *final(self) == (Metrics { cache_hits: counted(old(self).cache_hits), ..*old(self) }),
    {
        self.cache_hits = count_one(self.cache_hits);
    }

    /// Counts a request that the cache could not answer.
    pub fn increment_cache_misses(&mut self)
        ensures
            *final(self) == (Metrics { cache_misses: counted(old(self).cache_misses), ..*old(self) }),
    {
        self.cache_misses = count_one(self.cache_misses);
    }

    /// Counts a request received over UDP.
    pub fn increment_udp_requests(&mut self)
        ensures
            *final(self) == (Metrics { udp_requests: counted(old(self).udp_requests), ..*old(self) }),
    {
        self.udp_requests = count_one(self.udp_requests);
    }

    /// Counts a request received over TCP.
    pub fn increment_tcp_requests(&mut self)
        ensures
            *final(self) == (Metrics { tcp_requests: counted(old(self).tcp_requests), ..*old(self) }),
    {
        self.tcp_requests = count_one(self.tcp_requests);
    }

    /// Counts an upstream request that gave no usable response.
    pub fn increment_upstream_errors(&mut self)
        ensures
            *final(self) == (Metrics { upstream_errors: counted(old(self).upstream_errors), ..*old(self) }),
    {
        self.upstream_errors = count_one(self.upstream_errors);
    }
}

} // verus!
