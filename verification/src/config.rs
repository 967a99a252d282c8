//! The resolver's configuration: plain records, filled in by the caller.

use vstd::prelude::*;

verus! {

/// Where the resolver listens.
#[derive(Debug, Clone)]
pub struct ServerConfiguration {
    pub listen_address: String,
}

impl ServerConfiguration {
    pub fn new(listen_address: String) -> (r: Self)
        ensures
            r.listen_address == listen_address,
    {
        ServerConfiguration { listen_address }
    }

    /// The address, `host:port`, that both listeners bind.
    pub fn listen_address(&self) -> (r: &String)
        ensures
            *r == self.listen_address,
    {
        &self.listen_address
    }
}

/// The bounds of the response cache.
#[derive(Debug, Clone, Copy)]
pub struct CacheConfiguration {
    pub max_size: usize,
    pub max_purges_per_timer_pop: usize,
}

impl CacheConfiguration {
    pub fn new(max_size: usize, max_purges_per_timer_pop: usize) -> (r: Self)
        ensures
            r.max_size == max_size,
            r.max_purges_per_timer_pop == max_purges_per_timer_pop,
    {
        CacheConfiguration { max_size, max_purges_per_timer_pop }
    }

    /// The most entries that the cache holds.
    pub fn max_size(&self) -> (r: usize)
        ensures
            r == self.max_size,
    {
        self.max_size
    }

    /// The most entries that one periodic purge removes.
    pub fn max_purges_per_timer_pop(&self) -> (r: usize)
        ensures
            r == self.max_purges_per_timer_pop,
    {
        self.max_purges_per_timer_pop
    }
}

/// How the upstream is reached.
#[derive(Debug, Clone)]
pub struct ClientConfiguration {
    pub remote_url: String,
    pub request_timeout_seconds: u64,
}

impl ClientConfiguration {
    pub fn new(remote_url: String, request_timeout_seconds: u64) -> (r: Self)
        ensures
            r.remote_url == remote_url,
            r.request_timeout_seconds == request_timeout_seconds,
    {
        ClientConfiguration { remote_url, request_timeout_seconds }
    }

    /// The URL of the upstream endpoint.
    pub fn remote_url(&self) -> (r: &String)
        ensures
            *r == self.remote_url,
    {
        &self.remote_url
    }

    /// The deadline of one upstream request, in seconds.
    pub fn request_timeout_seconds(&self) -> (r: u64)
        ensures
            r == self.request_timeout_seconds,
    {
        self.request_timeout_seconds
    }
}

/// The bounds that upstream TTLs are clamped into.
#[derive(Debug, Clone, Copy)]
pub struct ProxyConfiguration {
    pub clamp_min_ttl_seconds: u32,
    pub clamp_max_ttl_seconds: u32,
}

impl ProxyConfiguration {
    pub fn new(clamp_min_ttl_seconds: u32, clamp_max_ttl_seconds: u32) -> (r: Self)
        ensures
            r.clamp_min_ttl_seconds == clamp_min_ttl_seconds,
            r.clamp_max_ttl_seconds == clamp_max_ttl_seconds,
    {
        ProxyConfiguration { clamp_min_ttl_seconds, clamp_max_ttl_seconds }
    }

    /// The lower bound on record TTLs.
    pub fn clamp_min_ttl_seconds(&self) -> (r: u32)
        ensures
            r == self.clamp_min_ttl_seconds,
    {
        self.clamp_min_ttl_seconds
    }

    /// The upper bound on record TTLs.
    pub fn clamp_max_ttl_seconds(&self) -> (r: u32)
        ensures
            r == self.clamp_max_ttl_seconds,
    {
        self.clamp_max_ttl_seconds
    }
}

/// A static address answer: `name` has the IPv4 address `ip_address`.
#[derive(Debug, Clone)]
pub struct ForwardDomainConfiguration {
    pub name: String,
    pub ip_address: [u8; 4],
    pub ttl_seconds: u32,
}

impl ForwardDomainConfiguration {
    pub fn new(name: String, ip_address: [u8; 4], ttl_seconds: u32) -> (r: Self)
        ensures
            r.name == name,
            r.ip_address == ip_address,
            r.ttl_seconds == ttl_seconds,
    {
        ForwardDomainConfiguration { name, ip_address, ttl_seconds }
    }

    /// The owner name of the answer.
    pub fn name(&self) -> (r: &String)
        ensures
            *r == self.name,
    {
        &self.name
    }

    /// The four octets of the address.
    pub fn ip_address(&self) -> (r: [u8; 4])
        ensures
            r == self.ip_address,
    {
        self.ip_address
    }

    /// The TTL of the answer.
    pub fn ttl_seconds(&self) -> (r: u32)
        ensures
            r == self.ttl_seconds,
    {
        self.ttl_seconds
    }
}

/// A static pointer answer: `reverse_address` points to `name`.
#[derive(Debug, Clone)]
pub struct ReverseDomainConfiguration {
    pub reverse_address: String,
    pub name: String,
    pub ttl_seconds: u32,
}

impl ReverseDomainConfiguration {
    pub fn new(reverse_address: String, name: String, ttl_seconds: u32) -> (r: Self)
        ensures
            r.reverse_address == reverse_address,
            r.name == name,
            r.ttl_seconds == ttl_seconds,
    {
        ReverseDomainConfiguration { reverse_address, name, ttl_seconds }
    }

    /// The owner name of the answer, under `in-addr.arpa`.
    pub fn reverse_address(&self) -> (r: &String)
        ensures
            *r == self.reverse_address,
    {
        &self.reverse_address
    }

    /// The name that the answer points to.
    pub fn name(&self) -> (r: &String)
        ensures
            *r == self.name,
    {
        &self.name
    }

    /// The TTL of the answer.
    pub fn ttl_seconds(&self) -> (r: u32)
        ensures
            r == self.ttl_seconds,
    {
        self.ttl_seconds
    }
}

/// A copy of a list of address entries.
pub fn copy_forward(entries: &Vec<ForwardDomainConfiguration>) -> (r: Vec<ForwardDomainConfiguration>)
    ensures
        r@.len() == entries@.len(),
        forall|i: int|
            0 <= i < r@.len() ==> r@[i].name@ == entries@[i].name@ && r@[i].ip_address
                == entries@[i].ip_address && r@[i].ttl_seconds == entries@[i].ttl_seconds,
{
    let mut out: Vec<ForwardDomainConfiguration> = Vec::new();
    let mut i: usize = 0;
    while i < entries.len()
        invariant
            i <= entries.len(),
            out@.len() == i,
            forall|k: int|
                0 <= k < i ==> out@[k].name@ == entries@[k].name@ && out@[k].ip_address
                    == entries@[k].ip_address && out@[k].ttl_seconds == entries@[k].ttl_seconds,
        decreases entries.len() - i,
    {
        let e = &entries[i];
        out.push(ForwardDomainConfiguration::new(e.name.clone(), e.ip_address, e.ttl_seconds));
        i += 1;
    }
    out
}

/// A copy of a list of pointer entries.
pub fn copy_reverse(entries: &Vec<ReverseDomainConfiguration>) -> (r: Vec<ReverseDomainConfiguration>)
    ensures
        r@.len() == entries@.len(),
        forall|i: int|
            0 <= i < r@.len() ==> r@[i].reverse_address@ == entries@[i].reverse_address@
                && r@[i].name@ == entries@[i].name@ && r@[i].ttl_seconds == entries@[i].ttl_seconds,
{
    let mut out: Vec<ReverseDomainConfiguration> = Vec::new();
    let mut i: usize = 0;
    while i < entries.len()
        invariant
            i <= entries.len(),
            out@.len() == i,
            forall|k: int|
                0 <= k < i ==> out@[k].reverse_address@ == entries@[k].reverse_address@
                    && out@[k].name@ == entries@[k].name@ && out@[k].ttl_seconds
                    == entries@[k].ttl_seconds,
        decreases entries.len() - i,
    {
        let e = &entries[i];
        out.push(
            ReverseDomainConfiguration::new(e.reverse_address.clone(), e.name.clone(), e.ttl_seconds),
        );
        i += 1;
    }
    out
}

/// The whole configuration.
#[derive(Debug, Clone)]
pub struct Configuration {
    pub server_configuration: ServerConfiguration,
    pub cache_configuration: CacheConfiguration,
    pub client_configuration: ClientConfiguration,
    pub proxy_configuration: ProxyConfiguration,
    pub forward_domain_configurations: Vec<ForwardDomainConfiguration>,
    pub reverse_domain_configurations: Vec<ReverseDomainConfiguration>,
    pub timer_interval_seconds: u64,
}

impl Configuration {
    /// Whether the bounds are usable: the cache holds at least one entry, and
    /// the purge timer's period is at least one second.
    pub fn is_valid(&self) -> (r: bool)
        ensures
            r == (self.cache_configuration.max_size >= 1 && self.timer_interval_seconds >= 1),
    {
        self.cache_configuration.max_size >= 1 && self.timer_interval_seconds >= 1
    }

    pub fn server_configuration(&self) -> (r: &ServerConfiguration)
        ensures
            *r == self.server_configuration,
    {
        &self.server_configuration
    }

    pub fn cache_configuration(&self) -> (r: &CacheConfiguration)
        ensures
            *r == self.cache_configuration,
    {
        &self.cache_configuration
    }

    pub fn client_configuration(&self) -> (r: &ClientConfiguration)
        ensures
            *r == self.client_configuration,
    {
        &self.client_configuration
    }

    pub fn proxy_configuration(&self) -> (r: &ProxyConfiguration)
        ensures
            *r == self.proxy_configuration,
    {
        &self.proxy_configuration
    }

    pub fn forward_domain_configurations(&self) -> (r: &Vec<ForwardDomainConfiguration>)
        ensures
            *r == self.forward_domain_configurations,
    {
        &self.forward_domain_configurations
    }

    pub fn reverse_domain_configurations(&self) -> (r: &Vec<ReverseDomainConfiguration>)
        ensures
            *r == self.reverse_domain_configurations,
    {
        &self.reverse_domain_configurations
    }

    /// The period of the purge timer, in seconds.
    pub fn timer_interval_seconds(&self) -> (r: u64)
        ensures
            r == self.timer_interval_seconds,
    {
        self.timer_interval_seconds
    }
}

} // verus!
