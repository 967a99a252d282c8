//! The resolver: what is decided for each request. A request is answered
//! from the table of local domains, else from the cache, else it goes
//! upstream; the upstream response has its TTLs clamped, is cached where it
//! may be, and goes back under the request's id. The upstream transaction
//! and the clock belong to the caller, who hands in their results.

use vstd::prelude::*;
use trust_dns_proto::op::Message;
use crate::cache::{
    after_put, count_expired, expired_at, holds, millis_between, purged, slot_of, Cache,
    CacheObject, CacheSlot,
};
use crate::client::DOHResponse;
use crate::config::Configuration;
use crate::config::{copy_forward, copy_reverse};
use crate::localdomain::{
    built_from, fails_with, lookup, names_parse, LocalDomainCache, LocalDomainEntry,
    LocalDomainError,
};
use crate::message::{
    clone_message, decode_message, decoded, encode_message, first_question_of, id_of, is_encoding,
    message_id, message_rcode, rcode_of, same_header, set_message_id, set_message_rcode, set_message_type,
    ttls_of, with_id, with_message_type, with_response_code, with_ttls, RCODE_NO_ERROR,
    RCODE_NX_DOMAIN, RCODE_SERV_FAIL,
};
use crate::metrics::{counted, Metrics};
use crate::request_key::{is_wire_name, key_of, KeyError, RequestKey, RequestKeyView};
use crate::ttl::{
    can_decrement, clamp_and_get_min_ttl_seconds, clamped, decrement_is_monotone,
    decrement_message_ttls, decremented, min_ttl,
};

verus! {

/// The upstream could not be reached, or did not answer in time.
#[derive(Debug, Clone, Copy, PartialEq, Eq, Structural)]
pub struct TransportError;

/// What the resolver decided for a request message.
pub enum Lookup {
    /// The response is here.
    Answered(Message),
    /// Neither the local table nor the cache answers: ask the upstream, and
    /// cache its response under this key.
    Upstream(RequestKey),
}

/// What the resolver decided for a request buffer.
pub enum PacketStep {
    /// Nothing is sent back.
    NoReply,
    /// These bytes are sent back.
    Reply(Vec<u8>),
    /// `buffer` goes to the upstream; its outcome comes back with `request`
    /// and `key`.
    Upstream { request: Message, key: RequestKey, buffer: Vec<u8> },
}

/// The failure response to a request: the request as a response with the
/// code of a server failure.
pub open spec fn failure_of(request: Message) -> Message {
    with_response_code(with_message_type(request, true), RCODE_SERV_FAIL)
}

/// The request as it goes upstream: under id 0.
pub open spec fn upstream_request(request: Message) -> Message {
    with_id(request, 0)
}

/// The message that an upstream outcome carries, if it carries one.
pub open spec fn upstream_message(outcome: Result<DOHResponse, TransportError>) -> Option<Message> {
    match outcome {
        Ok(DOHResponse::HTTPRequestSuccess(buffer)) => decoded(buffer@),
        Ok(DOHResponse::HTTPRequestError) => None,
        Err(_) => None,
    }
}

/// A response with its TTLs clamped.
pub open spec fn clamped_response(response: Message, lo: u32, hi: u32) -> Message {
    with_ttls(response, clamped(ttls_of(response), lo, hi))
}

/// A response is cached only if it reports no error or a missing name, its
/// least clamped TTL is above 0, and the key is valid.
pub open spec fn cacheable(rcode: u16, least_ttl: u32, key: RequestKeyView) -> bool {
    (rcode == RCODE_NO_ERROR || rcode == RCODE_NX_DOMAIN) && least_ttl > 0 && is_wire_name(key.name)
}

/// The cache's entries after an upstream response came in at `now`.
pub open spec fn cached_after(
    slots: Seq<CacheSlot>,
    capacity: usize,
    key: RequestKey,
    response: Message,
    lo: u32,
    hi: u32,
    now: u64,
) -> Seq<CacheSlot> {
    let least = min_ttl(clamped(ttls_of(response), lo, hi));
    if cacheable(rcode_of(response), least, key@) {
        after_put(
            slots,
            CacheSlot {
                key,
                object: CacheObject {
                    message: clamped_response(response, lo, hi),
                    inserted_at_millis: now,
                    min_ttl_seconds: least,
                },
            },
            capacity,
        )
    } else {
        slots
    }
}

/// The whole seconds that an entry has been in cache at `now`.
pub open spec fn seconds_cached(object: CacheObject, now: u64) -> u64 {
    (millis_between(object.inserted_at_millis, now) / 1000) as u64
}

/// The cached response for a key at `now`, its TTLs lowered by its time in
/// cache: there is one if an entry stands under the key, is not expired, and
/// none of its TTLs is below that time.
pub open spec fn cache_hit(slots: Seq<CacheSlot>, key: RequestKeyView, now: u64) -> Option<Message> {
    if holds(slots, key) {
        let object = slots[slot_of(slots, key)].object;
        let elapsed = seconds_cached(object, now);
        if !expired_at(object, now) && can_decrement(ttls_of(object.message), elapsed) {
            Some(with_ttls(object.message, decremented(ttls_of(object.message), elapsed)))
        } else {
            None
        }
    } else {
        None
    }
}

/// A message under another id, if there is a message.
pub open spec fn under_id(message: Option<Message>, id: u16) -> Option<Message> {
    match message {
        Some(m) => Some(with_id(m, id)),
        None => None,
    }
}

/// The counters after a request was decided from what is at hand: a hit is
/// counted where the cache answers, a miss where the request goes upstream,
/// and nothing where the request holds no question or the local table
/// answers.
pub open spec fn counted_lookup(
    metrics: Metrics,
    request: Message,
    local: Seq<LocalDomainEntry>,
    slots: Seq<CacheSlot>,
    now: u64,
) -> Metrics {
    match first_question_of(request) {
        None => metrics,
        Some(q) => match lookup(local, key_of(q)) {
            Some(_) => metrics,
            None => match cache_hit(slots, key_of(q), now) {
                Some(_) => Metrics { cache_hits: counted(metrics.cache_hits), ..metrics },
                None => Metrics { cache_misses: counted(metrics.cache_misses), ..metrics },
            },
        },
    }
}

/// Whether bytes answer a request with a response: they are a wire form of
/// the response, or of the failure response to the request.
pub open spec fn is_reply(request: Message, response: Message, bytes: Seq<u8>) -> bool {
    is_encoding(response, bytes) || is_encoding(failure_of(request), bytes)
}

/// The answer to a request from what is at hand: the failure response where
/// the request holds no question, else the local table's response, else the
/// cache's; `None` where the request has to go upstream.
pub open spec fn answer_at_hand(
    request: Message,
    local: Seq<LocalDomainEntry>,
    slots: Seq<CacheSlot>,
    now: u64,
) -> Option<Message> {
    match first_question_of(request) {
        None => Some(failure_of(request)),
        Some(q) => match lookup(local, key_of(q)) {
            Some(m) => Some(with_id(m, id_of(request))),
            None => under_id(cache_hit(slots, key_of(q), now), id_of(request)),
        },
    }
}

/// The step for a request that was answered, given what encoding the answer
/// came to.
pub open spec fn step_of_reply(reply: Option<Vec<u8>>) -> PacketStep {
    match reply {
        Some(bytes) => PacketStep::Reply(bytes),
        None => PacketStep::NoReply,
    }
}

/// The step for a request that goes upstream, given what encoding it for the
/// upstream came to, and what encoding the failure response came to.
pub open spec fn step_of_upstream(
    request: Message,
    key: RequestKey,
    buffer: Option<Vec<u8>>,
    failure: Option<Vec<u8>>,
) -> PacketStep {
    match buffer {
        Some(bytes) => PacketStep::Upstream { request, key, buffer: bytes },
        None => step_of_reply(failure),
    }
}

/// The message that answers a request once the upstream has been asked.
pub open spec fn completed(request: Message, upstream: Option<Message>, lo: u32, hi: u32) -> Message {
    match upstream {
        Some(response) => with_id(clamped_response(response, lo, hi), id_of(request)),
        None => failure_of(request),
    }
}

/// Each later hit on an entry gives TTLs that are no higher: where the entry
/// can still be served at the later time, it could be served at the earlier
/// one, and each record's TTL then was at least what it is now.
pub proof fn later_hit_has_lower_ttls(object: CacheObject, earlier: u64, later: u64, i: int)
    requires
        earlier <= later,
        can_decrement(ttls_of(object.message), seconds_cached(object, later)),
        0 <= i < ttls_of(object.message).len(),
    ensures
        can_decrement(ttls_of(object.message), seconds_cached(object, earlier)),
        decremented(ttls_of(object.message), seconds_cached(object, later))[i] <= decremented(
            ttls_of(object.message),
            seconds_cached(object, earlier),
        )[i],
{
    assert(seconds_cached(object, earlier) <= seconds_cached(object, later));
    decrement_is_monotone(
        ttls_of(object.message),
        seconds_cached(object, earlier),
        seconds_cached(object, later),
        i,
    );
}

/// The first buffer, or the second where there is no first.
pub fn first_buffer(first: Option<Vec<u8>>, second: Option<Vec<u8>>) -> (r: Option<Vec<u8>>)
    ensures
        r == match first {
            Some(bytes) => Some(bytes),
            None => second,
        },
{
    match first {
        Some(bytes) => Some(bytes),
        None => second,
    }
}

/// The step for a request that was answered: the reply is sent where the
/// answer was encoded, and nothing is sent where it was not.
pub fn reply_step(reply: Option<Vec<u8>>) -> (r: PacketStep)
    ensures
        r == step_of_reply(reply),
{
    match reply {
        Some(bytes) => PacketStep::Reply(bytes),
        None => PacketStep::NoReply,
    }
}

/// The step for a request that goes upstream: it goes there where it was
/// encoded; else the failure response is sent where that was encoded, and
/// nothing where it was not.
pub fn upstream_step(
    request: Message,
    key: RequestKey,
    buffer: Option<Vec<u8>>,
    failure: Option<Vec<u8>>,
) -> (r: PacketStep)
    ensures
        r == step_of_upstream(request, key, buffer, failure),
{
    match buffer {
        Some(bytes) => PacketStep::Upstream { request, key, buffer: bytes },
        None => reply_step(failure),
    }
}

/// The resolver's state.
pub struct DOHProxy {
    pub configuration: Configuration,
    pub local_domain_cache: LocalDomainCache,
    pub cache: Cache,
    pub metrics: Metrics,
}

impl DOHProxy {
    /// The state's invariant: that of its cache.
    pub open spec fn wf(&self) -> bool {
        self.cache.wf()
    }

    /// The lower bound of the TTL clamp.
    pub open spec fn lo(&self) -> u32 {
        self.configuration.proxy_configuration.clamp_min_ttl_seconds
    }

    /// The upper bound of the TTL clamp.
    pub open spec fn hi(&self) -> u32 {
        self.configuration.proxy_configuration.clamp_max_ttl_seconds
    }

    /// Whether two states differ in their counters at most.
    pub open spec fn same_but_metrics(&self, other: &DOHProxy) -> bool {
        &&& self.configuration == other.configuration
        &&& self.local_domain_cache == other.local_domain_cache
        &&& self.cache == other.cache
    }

    /// Whether two states differ in their cache's entries and their counters
    /// at most.
    pub open spec fn same_setup(&self, other: &DOHProxy) -> bool {
        &&& self.configuration == other.configuration
        &&& self.local_domain_cache == other.local_domain_cache
        &&& self.cache.capacity() == other.cache.capacity()
        &&& self.cache.purge_budget() == other.cache.purge_budget()
    }

    /// A resolver with the configured local domains, an empty cache and all
    /// counters at zero. It fails where the local domains' table cannot be
    /// built, with the error of the first entry that gives no response.
    pub fn new(configuration: Configuration) -> (r: Result<Self, LocalDomainError>)
        ensures
            match r {
                Ok(proxy) => {
                    &&& proxy.wf()
                    &&& built_from(
                        proxy.local_domain_cache.entries(),
                        configuration.forward_domain_configurations@,
                        configuration.reverse_domain_configurations@,
                    )
                    &&& proxy.configuration == configuration
                    &&& proxy.cache.slots().len() == 0
                    &&& proxy.cache.capacity() == configuration.cache_configuration.max_size
                    &&& proxy.cache.purge_budget()
                        == configuration.cache_configuration.max_purges_per_timer_pop
                    &&& proxy.metrics == (Metrics {
                        cache_hits: 0,
                        cache_misses: 0,
                        udp_requests: 0,
                        tcp_requests: 0,
                        upstream_errors: 0,
                    })
                },
                Err(e) => fails_with(
                    configuration.forward_domain_configurations@,
                    configuration.reverse_domain_configurations@,
                    e,
                ) && e != LocalDomainError::InvalidRequestKey,
            },
            names_parse(
                configuration.forward_domain_configurations@,
                configuration.reverse_domain_configurations@,
            ) ==> r.is_ok(),
    {
        let forward = copy_forward(configuration.forward_domain_configurations());
        let reverse = copy_reverse(configuration.reverse_domain_configurations());
        let cache = Cache::new(*configuration.cache_configuration());
        match LocalDomainCache::new(forward, reverse) {
            Ok(local_domain_cache) => Ok(
                DOHProxy { configuration, local_domain_cache, cache, metrics: Metrics::new() },
            ),
            Err(e) => Err(e),
        }
    }

    /// A wire form of a message, or `None` where the codec gives none.
    pub fn encode_dns_message(&self, message: &Message) -> (r: Option<Vec<u8>>)
        ensures
            r matches Some(bytes) ==> is_encoding(*message, bytes@),
    {
        encode_message(message)
    }

    /// The message that a buffer holds, if it holds one.
    pub fn decode_dns_message_vec(&self, buffer: Vec<u8>) -> (r: Option<Message>)
        ensures
            r == decoded(buffer@),
    {
        decode_message(buffer.as_slice())
    }

    /// The message that a buffer holds, if it holds one.
    pub fn decode_dns_message_slice(&self, buffer: &[u8]) -> (r: Option<Message>)
        ensures
            r == decoded(buffer@),
    {
        decode_message(buffer)
    }

    /// The failure response to a request. It carries the request's id, first
    /// question and TTLs.
    pub fn build_failure_response_message(&self, request: &Message) -> (r: Message)
        ensures
            r == failure_of(*request),
            id_of(r) == id_of(*request),
            first_question_of(r) == first_question_of(*request),
            ttls_of(r) == ttls_of(*request),
    {
        let mut response_message = clone_message(request);
        set_message_type(&mut response_message, true);
        set_message_rcode(&mut response_message, RCODE_SERV_FAIL);
        response_message
    }

    /// A wire form of the failure response to a request, or `None` where the
    /// codec gives none.
    pub fn build_failure_response_buffer(&self, request: &Message) -> (r: Option<Vec<u8>>)
        ensures
            r matches Some(bytes) ==> is_encoding(failure_of(*request), bytes@),
    {
        let response_message = self.build_failure_response_message(request);
        self.encode_dns_message(&response_message)
    }

    /// The buffer that goes upstream for a request: a wire form of the
    /// request under id 0, or `None` where the codec gives none.
    pub fn build_doh_request_buffer(&self, request_message: &Message) -> (r: Option<Vec<u8>>)
        ensures
            r matches Some(bytes) ==> is_encoding(upstream_request(*request_message), bytes@),
    {
        let mut doh_request_message = clone_message(request_message);
        set_message_id(&mut doh_request_message, 0);
        self.encode_dns_message(&doh_request_message)
    }

    /// The message that an upstream outcome carries: the decoded body of a
    /// success, and nothing for an error or a body that does not decode.
    pub fn read_doh_response(&self, outcome: Result<DOHResponse, TransportError>) -> (r: Option<Message>)
        ensures
            r == upstream_message(outcome),
    {
        match outcome {
            Ok(DOHResponse::HTTPRequestSuccess(buffer)) => self.decode_dns_message_vec(buffer),
            Ok(DOHResponse::HTTPRequestError) => None,
            Err(_) => None,
        }
    }

    /// Clamps the TTLs of a message into the configured bounds and gives the
    /// least clamped TTL, 0 where the message holds no record. Clamping is
    /// idempotent: a clamped message is left as it was, with the same least
    /// TTL. Nothing but TTLs changes: id, response code and first question
    /// stay, there are as many records as before, and with the old TTLs put
    /// back the message would be the old one.
    pub fn clamp_and_get_min_ttl_seconds(&self, response_message: &mut Message) -> (r: u32)
        ensures
            *final(response_message) == clamped_response(*old(response_message), self.lo(), self.hi()),
            ttls_of(*final(response_message)) == clamped(
                ttls_of(*old(response_message)),
                self.lo(),
                self.hi(),
            ),
            r == min_ttl(clamped(ttls_of(*old(response_message)), self.lo(), self.hi())),
            clamped(ttls_of(*final(response_message)), self.lo(), self.hi()) == ttls_of(
                *final(response_message),
            ),
            ttls_of(*old(response_message)) == clamped(
                ttls_of(*old(response_message)),
                self.lo(),
                self.hi(),
            ) ==> *final(response_message) == *old(response_message),
            same_header(*final(response_message), *old(response_message)),
            ttls_of(*final(response_message)).len() == ttls_of(*old(response_message)).len(),
            with_ttls(*final(response_message), ttls_of(*old(response_message))) == *old(
                response_message,
            ),
    {
        let lo = self.configuration.proxy_configuration().clamp_min_ttl_seconds();
        let hi = self.configuration.proxy_configuration().clamp_max_ttl_seconds();
        clamp_and_get_min_ttl_seconds(response_message, lo, hi)
    }

    /// Clamps the TTLs of an upstream response and caches it, as inserted at
    /// `now_millis`, where it may be cached. Gives the clamped response.
    pub fn clamp_ttl_and_cache_response(
        &mut self,
        cache_key: RequestKey,
        response_message: Message,
        now_millis: u64,
    ) -> (r: Message)
        requires
            old(self).wf(),
        ensures
            final(self).wf(),
            final(self).same_setup(old(self)),
            final(self).metrics == old(self).metrics,
            r == clamped_response(response_message, old(self).lo(), old(self).hi()),
            ttls_of(r) == clamped(ttls_of(response_message), old(self).lo(), old(self).hi()),
            same_header(r, response_message),
            with_ttls(r, ttls_of(response_message)) == response_message,
            final(self).cache.slots() == cached_after(
                old(self).cache.slots(),
                old(self).cache.capacity(),
                cache_key,
                response_message,
                old(self).lo(),
                old(self).hi(),
                now_millis,
            ),
    {
        let rcode = message_rcode(&response_message);
        let mut response_message = response_message;
        let min_ttl_seconds = self.clamp_and_get_min_ttl_seconds(&mut response_message);
        if !(rcode == RCODE_NO_ERROR || rcode == RCODE_NX_DOMAIN) {
            return response_message;
        }
        if min_ttl_seconds == 0 {
            return response_message;
        }
        if !cache_key.valid() {
            return response_message;
        }
        let object = CacheObject::new(clone_message(&response_message), now_millis, min_ttl_seconds);
        self.cache.put(cache_key, object);
        response_message
    }

    /// The local table's response for a key, under the request's id.
    pub fn get_message_for_local_domain(&self, cache_key: &RequestKey, request_id: u16) -> (r: Option<Message>)
        ensures
            r == under_id(lookup(self.local_domain_cache.entries(), cache_key@), request_id),
            r.is_some() ==> id_of(r.unwrap()) == request_id,
    {
        match self.local_domain_cache.get_response_message(cache_key) {
            None => None,
            Some(message) => {
                let mut response_message = message;
                set_message_id(&mut response_message, request_id);
                Some(response_message)
            },
        }
    }

    /// The cached response for a key at `now_millis`, its TTLs lowered by its
    /// time in cache, under the request's id; its response code and first
    /// question are the entry's. The cache is left as it is.
    pub fn get_message_for_cache_hit(&self, cache_key: &RequestKey, request_id: u16, now_millis: u64) -> (r: Option<Message>)
        requires
            self.wf(),
        ensures
            r == under_id(cache_hit(self.cache.slots(), cache_key@, now_millis), request_id),
            r.is_some() ==> id_of(r.unwrap()) == request_id,
            r.is_some() ==> ({
                let object = self.cache.slots()[slot_of(self.cache.slots(), cache_key@)].object;
                &&& ttls_of(r.unwrap()) == decremented(
                    ttls_of(object.message),
                    seconds_cached(object, now_millis),
                )
                &&& rcode_of(r.unwrap()) == rcode_of(object.message)
                &&& first_question_of(r.unwrap()) == first_question_of(object.message)
            }),
    {
        let cache_object = match self.cache.get(cache_key) {
            None => { return None; },
            Some(cache_object) => cache_object,
        };
        if cache_object.expired(now_millis) {
            return None;
        }
        let seconds_to_subtract_from_ttl = cache_object.seconds_in_cache(now_millis);
        let mut response_message = cache_object.message;
        if !decrement_message_ttls(&mut response_message, seconds_to_subtract_from_ttl) {
            return None;
        }
        set_message_id(&mut response_message, request_id);
        Some(response_message)
    }

    /// Decides a request from what is at hand. A request without a question
    /// gets the failure response. Else the local table answers, or the cache
    /// does, which counts as a hit; else the request goes upstream, which
    /// counts as a miss. An answer carries the request's id.
    pub fn process_request_message(&mut self, request_message: &Message, now_millis: u64) -> (r: Lookup)
        requires
            old(self).wf(),
        ensures
            final(self).wf(),
            match r {
                Lookup::Answered(m) => id_of(m) == id_of(*request_message),
                Lookup::Upstream(_) => true,
            },
            final(self).same_but_metrics(old(self)),
            final(self).metrics == counted_lookup(
                old(self).metrics,
                *request_message,
                old(self).local_domain_cache.entries(),
                old(self).cache.slots(),
                now_millis,
            ),
            match first_question_of(*request_message) {
                None => r == Lookup::Answered(failure_of(*request_message)) && final(self).metrics
                    == old(self).metrics,
                Some(q) => match lookup(old(self).local_domain_cache.entries(), key_of(q)) {
                    Some(m) => r == Lookup::Answered(with_id(m, id_of(*request_message)))
                        && final(self).metrics == old(self).metrics,
                    None => match cache_hit(old(self).cache.slots(), key_of(q), now_millis) {
                        Some(m) => r == Lookup::Answered(with_id(m, id_of(*request_message)))
                            && final(self).metrics == (Metrics {
                            cache_hits: counted(old(self).metrics.cache_hits),
                            ..old(self).metrics
                        }),
                        None => (match r {
                            Lookup::Upstream(key) => key@ == key_of(q),
                            Lookup::Answered(_) => false,
                        }) && final(self).metrics == (Metrics {
                            cache_misses: counted(old(self).metrics.cache_misses),
                            ..old(self).metrics
                        }),
                    },
                },
            },
    {
        let cache_key = match RequestKey::from_message(request_message) {
            Err(KeyError::NoQueries) => {
                return Lookup::Answered(self.build_failure_response_message(request_message));
            },
            Ok(cache_key) => cache_key,
        };
        let request_id = message_id(request_message);
        if let Some(response_message) = self.get_message_for_local_domain(&cache_key, request_id) {
            return Lookup::Answered(response_message);
        }
        if let Some(response_message) = self.get_message_for_cache_hit(&cache_key, request_id, now_millis) {
            self.metrics.increment_cache_hits();
            return Lookup::Answered(response_message);
        }
        self.metrics.increment_cache_misses();
        Lookup::Upstream(cache_key)
    }

    /// Answers a request once the upstream has been asked. Without an
    /// upstream message the answer is the failure response, and an upstream
    /// error is counted. Else it is the upstream message with its TTLs
    /// clamped, under the request's id, and the cache holds it where it may
    /// be cached. Either way the answer carries the request's id; an upstream
    /// message keeps its response code and first question.
    pub fn complete_request_message(
        &mut self,
        request_message: &Message,
        cache_key: RequestKey,
        upstream: Option<Message>,
        now_millis: u64,
    ) -> (r: Message)
        requires
            old(self).wf(),
        ensures
            final(self).wf(),
            id_of(r) == id_of(*request_message),
            upstream matches Some(response) ==> ttls_of(r) == clamped(
                ttls_of(response),
                old(self).lo(),
                old(self).hi(),
            ) && rcode_of(r) == rcode_of(response) && first_question_of(r) == first_question_of(
                response,
            ),
            upstream.is_none() ==> first_question_of(r) == first_question_of(*request_message),
            final(self).same_setup(old(self)),
            r == completed(*request_message, upstream, old(self).lo(), old(self).hi()),
            match upstream {
                Some(response) => final(self).metrics == old(self).metrics && final(self).cache.slots()
                    == cached_after(
                    old(self).cache.slots(),
                    old(self).cache.capacity(),
                    cache_key,
                    response,
                    old(self).lo(),
                    old(self).hi(),
                    now_millis,
                ),
                None => final(self).cache == old(self).cache && final(self).metrics == (Metrics {
                    upstream_errors: counted(old(self).metrics.upstream_errors),
                    ..old(self).metrics
                }),
            },
    {
        let response_message = match upstream {
            None => {
                self.metrics.increment_upstream_errors();
                return self.build_failure_response_message(request_message);
            },
            Some(response_message) => response_message,
        };
        let mut response_message = self.clamp_ttl_and_cache_response(
            cache_key,
            response_message,
            now_millis,
        );
        set_message_id(&mut response_message, message_id(request_message));
        response_message
    }

    /// The bytes that answer a request with a response: a wire form of the
    /// response, or of the failure response where the response was not
    /// encoded, or nothing where neither was.
    pub fn encode_reply(&self, request_message: &Message, response_message: &Message) -> (r: Option<Vec<u8>>)
        ensures
            r matches Some(bytes) ==> is_reply(*request_message, *response_message, bytes@),
    {
        let first = self.encode_dns_message(response_message);
        let second = if first.is_none() {
            self.build_failure_response_buffer(request_message)
        } else {
            None
        };
        first_buffer(first, second)
    }

    /// Decides a request buffer from what is at hand. A buffer that does not
    /// decode gets no reply. A request that the local table or the cache
    /// answers, or that holds no question, gets a wire form of its answer;
    /// any other goes upstream in a wire form, under id 0, or gets the
    /// failure response where it was not encoded for that. Where the codec
    /// gives no wire form at all, nothing is sent. A hit or a miss is counted
    /// as for the request message.
    pub fn process_request_packet_buffer(&mut self, request_buffer: &[u8], now_millis: u64) -> (r: PacketStep)
        requires
            old(self).wf(),
        ensures
            final(self).wf(),
            final(self).same_but_metrics(old(self)),
            decoded(request_buffer@).is_none() ==> r == PacketStep::NoReply && final(self).metrics
                == old(self).metrics,
            decoded(request_buffer@).is_some() ==> final(self).metrics == counted_lookup(
                old(self).metrics,
                decoded(request_buffer@).unwrap(),
                old(self).local_domain_cache.entries(),
                old(self).cache.slots(),
                now_millis,
            ),
            decoded(request_buffer@).is_some() ==> ({
                let request = decoded(request_buffer@).unwrap();
                let answer = answer_at_hand(
                    request,
                    old(self).local_domain_cache.entries(),
                    old(self).cache.slots(),
                    now_millis,
                );
                match r {
                    PacketStep::NoReply => true,
                    PacketStep::Reply(bytes) => match answer {
                        Some(response) => is_reply(request, response, bytes@),
                        None => is_encoding(failure_of(request), bytes@),
                    },
                    PacketStep::Upstream { request: sent, key, buffer } => {
                        &&& answer.is_none()
                        &&& sent == request
                        &&& key@ == key_of(first_question_of(request).unwrap())
                        &&& is_encoding(upstream_request(request), buffer@)
                    },
                }
            }),
    {
        let request_message = match self.decode_dns_message_slice(request_buffer) {
            None => { return PacketStep::NoReply; },
            Some(message) => message,
        };
        match self.process_request_message(&request_message, now_millis) {
            Lookup::Answered(response_message) => reply_step(
                self.encode_reply(&request_message, &response_message),
            ),
            Lookup::Upstream(key) => {
                let buffer = self.build_doh_request_buffer(&request_message);
                let failure = if buffer.is_none() {
                    self.build_failure_response_buffer(&request_message)
                } else {
                    None
                };
                upstream_step(request_message, key, buffer, failure)
            },
        }
    }

    /// Answers a request buffer once the upstream has been asked: a wire form
    /// of the completed answer, or of the failure response where the answer
    /// was not encoded, or nothing where neither was.
    pub fn complete_request_packet_buffer(
        &mut self,
        request_message: &Message,
        cache_key: RequestKey,
        outcome: Result<DOHResponse, TransportError>,
        now_millis: u64,
    ) -> (r: Option<Vec<u8>>)
        requires
            old(self).wf(),
        ensures
            final(self).wf(),
            final(self).same_setup(old(self)),
            r matches Some(bytes) ==> is_reply(
                *request_message,
                completed(*request_message, upstream_message(outcome), old(self).lo(), old(self).hi()),
                bytes@,
            ),
            match upstream_message(outcome) {
                Some(response) => final(self).metrics == old(self).metrics && final(self).cache.slots()
                    == cached_after(
                    old(self).cache.slots(),
                    old(self).cache.capacity(),
                    cache_key,
                    response,
                    old(self).lo(),
                    old(self).hi(),
                    now_millis,
                ),
                None => final(self).cache == old(self).cache && final(self).metrics == (Metrics {
                    upstream_errors: counted(old(self).metrics.upstream_errors),
                    ..old(self).metrics
                }),
            },
    {
        let upstream = self.read_doh_response(outcome);
        let response_message = self.complete_request_message(
            request_message,
            cache_key,
            upstream,
            now_millis,
        );
        self.encode_reply(request_message, &response_message)
    }

    /// One tick of the purge timer at `now_millis`: expired entries leave the
    /// cache, oldest first, as many as one purge may remove. Gives the number
    /// of entries left and the number removed, which is the number of expired
    /// entries or the purge's bound, whichever is less.
    pub fn run_periodic_timer(&mut self, now_millis: u64) -> (r: (usize, usize))
        requires
            old(self).wf(),
        ensures
            final(self).wf(),
            final(self).same_setup(old(self)),
            final(self).metrics == old(self).metrics,
            final(self).cache.slots() == purged(
                old(self).cache.slots(),
                now_millis,
                old(self).cache.purge_budget() as nat,
            ),
            r.0 == final(self).cache.slots().len(),
            r.1 == old(self).cache.slots().len() - final(self).cache.slots().len(),
            r.1 <= old(self).cache.purge_budget(),
            r.1 <= count_expired(old(self).cache.slots(), now_millis),
            r.1 == old(self).cache.purge_budget() || r.1 == count_expired(
                old(self).cache.slots(),
                now_millis,
            ),
    {
        self.cache.periodic_purge(now_millis)
    }
}

} // verus!
