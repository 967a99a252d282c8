use doh_proxy::cache::{Cache, CacheObject};
use doh_proxy::client::{classify_http_response, DOHResponse};
use doh_proxy::config::{
    CacheConfiguration, ClientConfiguration, ForwardDomainConfiguration, ProxyConfiguration,
    ReverseDomainConfiguration, ServerConfiguration,
};
use doh_proxy::localdomain::{
    forward_domain_configuration_to_message, reverse_domain_configuration_to_message,
    LocalDomainCache, LocalDomainError,
};
use doh_proxy::message::Question;
use doh_proxy::metrics::Metrics;
use doh_proxy::request_key::{
    copy_octets, lowercase_octets, same_octets, to_lower_octet, KeyError, RequestKey,
};
use doh_proxy::ttl::{clamp_and_get_min_ttl_seconds, clamp_one, clamp_ttls, decrement_message_ttls, decrement_ttls};
use std::str::FromStr;
use trust_dns_proto::op::{Message, MessageType, Query, ResponseCode};
use trust_dns_proto::rr::resource::Record;
use trust_dns_proto::rr::{DNSClass, Name, RData, RecordType};

fn query(name: &str, rtype: RecordType, id: u16) -> Message {
    let mut m = Message::new();
    m.set_id(id);
    m.set_message_type(MessageType::Query);
    m.set_recursion_desired(true);
    m.add_query(Query::query(Name::from_str(name).unwrap(), rtype));
    m
}

fn address_record(name: &str, ttl: u32, ip: [u8; 4]) -> Record {
    Record::from_rdata(Name::from_str(name).unwrap(), ttl, RData::A(ip.into()))
}

fn key(name: &str) -> RequestKey {
    RequestKey::from_message(&query(name, RecordType::A, 1)).unwrap()
}

fn entry(name: &str, inserted_at_millis: u64, min_ttl_seconds: u32) -> CacheObject {
    let mut m = query(name, RecordType::A, 0);
    m.set_message_type(MessageType::Response);
    m.add_answer(address_record(name, min_ttl_seconds, [192, 0, 2, 1]));
    CacheObject::new(m, inserted_at_millis, min_ttl_seconds)
}

#[test]
fn key_of_first_question_is_lowercased_wire_name() {
    let k = RequestKey::from_message(&query("Example.COM.", RecordType::A, 7)).unwrap();
    let expected: Vec<u8> = vec![7, b'e', b'x', b'a', b'm', b'p', b'l', b'e', 3, b'c', b'o', b'm', 0];
    assert_eq!(k.name(), &expected);
    assert_eq!(k.record_type(), 1);
    assert_eq!(k.record_class(), 1);
    assert!(k.valid());
}

#[test]
fn keys_ignore_case_of_owner_name() {
    let a = RequestKey::from_message(&query("Example.Com.", RecordType::A, 1)).unwrap();
    let b = RequestKey::from_message(&query("eXAMPLE.cOM.", RecordType::A, 99)).unwrap();
    assert!(a.same_as(&b));
    assert!(b.same_as(&a));
}

#[test]
fn keys_differ_by_name_type_and_class() {
    let a = key("example.com.");
    let other_name = key("example.org.");
    let other_type = RequestKey::from_message(&query("example.com.", RecordType::AAAA, 1)).unwrap();
    let mut m = Message::new();
    let mut q = Query::query(Name::from_str("example.com.").unwrap(), RecordType::A);
    q.set_query_class(DNSClass::CH);
    m.add_query(q);
    let other_class = RequestKey::from_message(&m).unwrap();
    assert!(!a.same_as(&other_name));
    assert!(!a.same_as(&other_type));
    assert!(!a.same_as(&other_class));
    assert_eq!(other_type.record_type(), 28);
    assert_eq!(other_class.record_class(), 3);
}

#[test]
fn key_uses_first_question_only() {
    let mut m = query("first.example.", RecordType::A, 1);
    m.add_query(Query::query(Name::from_str("second.example.").unwrap(), RecordType::PTR));
    let k = RequestKey::from_message(&m).unwrap();
    assert!(k.same_as(&key("FIRST.example.")));
}

#[test]
fn message_without_question_has_no_key() {
    let m = Message::new();
    assert_eq!(RequestKey::from_message(&m).unwrap_err(), KeyError::NoQueries);
}

#[test]
fn key_of_malformed_name_is_invalid() {
    let no_root = Question { name: Some(vec![3, b'c', b'o', b'm']), rtype: 1, class: 1 };
    assert!(!RequestKey::from_question(&no_root).valid());
    let empty = Question { name: Some(vec![]), rtype: 1, class: 1 };
    assert!(!RequestKey::from_question(&empty).valid());
    let long_label = Question { name: Some(vec![64, 0]), rtype: 1, class: 1 };
    assert!(!RequestKey::from_question(&long_label).valid());
    let trailing = Question { name: Some(vec![1, b'a', 0, 0]), rtype: 1, class: 1 };
    assert!(!RequestKey::from_question(&trailing).valid());
    let root = Question { name: Some(vec![0]), rtype: 1, class: 1 };
    assert!(RequestKey::from_question(&root).valid());
    let good = Question { name: Some(vec![1, b'A', 2, b'b', b'C', 0]), rtype: 1, class: 1 };
    let k = RequestKey::from_question(&good);
    assert!(k.valid());
    assert_eq!(k.name(), &vec![1, b'a', 2, b'b', b'c', 0]);
}

#[test]
fn key_of_overlong_name_is_invalid() {
    let mut name: Vec<u8> = Vec::new();
    for _ in 0..128 {
        name.push(1);
        name.push(b'a');
    }
    name.push(0);
    assert_eq!(name.len(), 257);
    let q = Question { name: Some(name), rtype: 1, class: 1 };
    assert!(!RequestKey::from_question(&q).valid());
}

#[test]
fn octet_helpers() {
    assert_eq!(to_lower_octet(b'A'), b'a');
    assert_eq!(to_lower_octet(b'Z'), b'z');
    assert_eq!(to_lower_octet(b'a'), b'a');
    assert_eq!(to_lower_octet(b'@'), b'@');
    assert_eq!(to_lower_octet(b'['), b'[');
    assert_eq!(to_lower_octet(200), 200);
    assert!(same_octets(&vec![1, 2, 3], &vec![1, 2, 3]));
    assert!(!same_octets(&vec![1, 2, 3], &vec![1, 2, 4]));
    assert!(!same_octets(&vec![1, 2, 3], &vec![1, 2]));
    assert_eq!(copy_octets(&vec![9, 8, 7]), vec![9, 8, 7]);
    let k = key("copy.example.");
    assert!(k.duplicate().same_as(&k));
}

#[test]
fn clamp_raises_and_lowers() {
    assert_eq!(clamp_one(5, 30, 3600), 30);
    assert_eq!(clamp_one(30, 30, 3600), 30);
    assert_eq!(clamp_one(100, 30, 3600), 100);
    assert_eq!(clamp_one(3600, 30, 3600), 3600);
    assert_eq!(clamp_one(5000, 30, 3600), 3600);
    assert_eq!(clamp_one(5, 40, 20), 20);
    let (ttls, least) = clamp_ttls(&vec![5, 100, 5000], 30, 3600);
    assert_eq!(ttls, vec![30, 100, 3600]);
    assert_eq!(least, 30);
    let (ttls, least) = clamp_ttls(&vec![500, 100, 5000], 30, 3600);
    assert_eq!(ttls, vec![500, 100, 3600]);
    assert_eq!(least, 100);
}

#[test]
fn clamp_of_no_records_has_minimum_zero() {
    let (ttls, least) = clamp_ttls(&vec![], 30, 3600);
    assert_eq!(ttls, Vec::<u32>::new());
    assert_eq!(least, 0);
    let mut m = query("empty.example.", RecordType::A, 1);
    assert_eq!(clamp_and_get_min_ttl_seconds(&mut m, 30, 3600), 0);
}

#[test]
fn clamp_twice_equals_clamp_once() {
    let (once, least_once) = clamp_ttls(&vec![0, 29, 30, 31, 3599, 3600, 3601, u32::MAX], 30, 3600);
    let (twice, least_twice) = clamp_ttls(&once, 30, 3600);
    assert_eq!(once, twice);
    assert_eq!(least_once, least_twice);
    let mut m = query("twice.example.", RecordType::A, 1);
    m.add_answer(address_record("twice.example.", 5, [192, 0, 2, 1]));
    m.add_name_server(address_record("ns.example.", 86400, [192, 0, 2, 2]));
    clamp_and_get_min_ttl_seconds(&mut m, 30, 3600);
    let first = m.clone();
    clamp_and_get_min_ttl_seconds(&mut m, 30, 3600);
    assert_eq!(first, m);
}

#[test]
fn clamp_covers_three_sections_in_order() {
    let mut m = query("sections.example.", RecordType::A, 1);
    m.add_answer(address_record("sections.example.", 5, [192, 0, 2, 1]));
    m.add_answer(address_record("sections.example.", 100, [192, 0, 2, 2]));
    m.add_name_server(address_record("ns.example.", 86400, [192, 0, 2, 3]));
    m.add_additional(address_record("extra.example.", 45, [192, 0, 2, 4]));
    let least = clamp_and_get_min_ttl_seconds(&mut m, 30, 3600);
    assert_eq!(least, 30);
    assert_eq!(m.answers().len(), 2);
    assert_eq!(m.answers()[0].ttl(), 30);
    assert_eq!(m.answers()[1].ttl(), 100);
    assert_eq!(m.name_servers().len(), 1);
    assert_eq!(m.name_servers()[0].ttl(), 3600);
    assert_eq!(m.additionals().len(), 1);
    assert_eq!(m.additionals()[0].ttl(), 45);
    assert_eq!(m.queries().len(), 1);
    match m.answers()[1].rdata() {
        RData::A(ip) => assert_eq!(ip.octets(), [192, 0, 2, 2]),
        _ => panic!("an address record was expected"),
    }
}

#[test]
fn decrement_lowers_each_ttl() {
    assert_eq!(decrement_ttls(&vec![60, 20], 10), Some(vec![50, 10]));
    assert_eq!(decrement_ttls(&vec![60, 20], 20), Some(vec![40, 0]));
    assert_eq!(decrement_ttls(&vec![60, 20], 0), Some(vec![60, 20]));
    assert_eq!(decrement_ttls(&vec![], 1000), Some(vec![]));
}

#[test]
fn decrement_below_zero_is_refused() {
    assert_eq!(decrement_ttls(&vec![60, 20], 21), None);
    assert_eq!(decrement_ttls(&vec![60, 20], u64::MAX), None);
    let mut m = query("old.example.", RecordType::A, 1);
    m.add_answer(address_record("old.example.", 60, [192, 0, 2, 1]));
    m.add_additional(address_record("old.example.", 20, [192, 0, 2, 1]));
    let before = m.clone();
    assert!(!decrement_message_ttls(&mut m, 21));
    assert_eq!(m, before);
    assert!(decrement_message_ttls(&mut m, 20));
    assert_eq!(m.answers()[0].ttl(), 40);
    assert_eq!(m.additionals()[0].ttl(), 0);
}

#[test]
fn later_decrements_are_lower() {
    let ttls = vec![300, 120, 60];
    let earlier = decrement_ttls(&ttls, 10).unwrap();
    let later = decrement_ttls(&ttls, 45).unwrap();
    for i in 0..ttls.len() {
        assert!(later[i] <= earlier[i]);
    }
}

#[test]
fn cache_evicts_oldest_first() {
    let mut cache = Cache::new(CacheConfiguration::new(2, 10));
    cache.put(key("a.example."), entry("a.example.", 0, 300));
    cache.put(key("b.example."), entry("b.example.", 0, 300));
    cache.put(key("c.example."), entry("c.example.", 0, 300));
    assert_eq!(cache.len(), 2);
    assert!(cache.get(&key("a.example.")).is_none());
    assert!(cache.get(&key("b.example.")).is_some());
    assert!(cache.get(&key("c.example.")).is_some());
}

#[test]
fn cache_never_exceeds_max_size() {
    let mut cache = Cache::new(CacheConfiguration::new(3, 10));
    let names = ["a.example.", "b.example.", "a.example.", "c.example.", "d.example.", "e.example.", "b.example."];
    for name in names.iter() {
        cache.put(key(name), entry(name, 0, 300));
        assert!(cache.len() <= 3);
    }
    assert_eq!(cache.len(), 3);
}

#[test]
fn cache_of_size_zero_holds_nothing() {
    let mut cache = Cache::new(CacheConfiguration::new(0, 10));
    cache.put(key("a.example."), entry("a.example.", 0, 300));
    assert_eq!(cache.len(), 0);
    assert!(cache.get(&key("a.example.")).is_none());
}

#[test]
fn cache_replacement_moves_key_to_newest_end() {
    let mut cache = Cache::new(CacheConfiguration::new(2, 10));
    cache.put(key("a.example."), entry("a.example.", 0, 300));
    cache.put(key("b.example."), entry("b.example.", 0, 300));
    cache.put(key("A.example."), entry("a.example.", 5, 100));
    assert_eq!(cache.len(), 2);
    cache.put(key("c.example."), entry("c.example.", 0, 300));
    assert!(cache.get(&key("b.example.")).is_none());
    let a = cache.get(&key("a.example.")).unwrap();
    assert_eq!(a.inserted_at_millis, 5);
    assert_eq!(a.min_ttl_seconds, 100);
    assert!(cache.get(&key("c.example.")).is_some());
}

#[test]
fn cache_get_does_not_promote() {
    let mut cache = Cache::new(CacheConfiguration::new(2, 10));
    cache.put(key("a.example."), entry("a.example.", 0, 300));
    cache.put(key("b.example."), entry("b.example.", 0, 300));
    assert!(cache.get(&key("a.example.")).is_some());
    cache.put(key("c.example."), entry("c.example.", 0, 300));
    assert!(cache.get(&key("a.example.")).is_none());
    assert!(cache.get(&key("b.example.")).is_some());
}

#[test]
fn cache_entry_is_visible_until_its_ttl_has_passed() {
    let mut cache = Cache::new(CacheConfiguration::new(4, 10));
    cache.put(key("a.example."), entry("a.example.", 1_000, 60));
    let k = key("a.example.");
    assert!(cache.get_unexpired(&k, 1_000).is_some());
    assert!(cache.get_unexpired(&k, 60_999).is_some());
    assert!(cache.get_unexpired(&k, 61_000).is_none());
    assert!(cache.get_unexpired(&k, 500_000).is_none());
    assert!(cache.get_unexpired(&k, 0).is_some());
    assert!(cache.get(&k).is_some());
    assert!(cache.get_unexpired(&key("b.example."), 1_000).is_none());
}

#[test]
fn cache_object_times() {
    let object = entry("a.example.", 1_000, 60);
    assert_eq!(object.millis_in_cache(11_500), 10_500);
    assert_eq!(object.seconds_in_cache(11_500), 10);
    assert_eq!(object.seconds_in_cache(500), 0);
    assert!(!object.expired(60_999));
    assert!(object.expired(61_000));
    let copy = object.duplicate();
    assert_eq!(copy.message, object.message);
    assert_eq!(copy.inserted_at_millis, 1_000);
    assert_eq!(copy.min_ttl_seconds, 60);
}

#[test]
fn periodic_purge_is_bounded() {
    let mut cache = Cache::new(CacheConfiguration::new(100, 3));
    let names = ["a0.", "a1.", "a2.", "a3.", "a4.", "a5.", "a6.", "a7.", "a8.", "a9."];
    for name in names.iter() {
        cache.put(key(name), entry(name, 0, 1));
    }
    assert_eq!(cache.periodic_purge(5_000), (7, 3));
    assert!(cache.get(&key("a0.")).is_none());
    assert!(cache.get(&key("a2.")).is_none());
    assert!(cache.get(&key("a3.")).is_some());
    assert_eq!(cache.periodic_purge(5_000), (4, 3));
    assert_eq!(cache.periodic_purge(5_000), (1, 3));
    assert_eq!(cache.periodic_purge(5_000), (0, 1));
    assert_eq!(cache.periodic_purge(5_000), (0, 0));
}

#[test]
fn periodic_purge_keeps_live_entries() {
    let mut cache = Cache::new(CacheConfiguration::new(100, 10));
    cache.put(key("old1."), entry("old1.", 0, 1));
    cache.put(key("live1."), entry("live1.", 0, 300));
    cache.put(key("old2."), entry("old2.", 0, 2));
    cache.put(key("live2."), entry("live2.", 0, 300));
    assert_eq!(cache.periodic_purge(2_000), (2, 2));
    assert!(cache.get(&key("live1.")).is_some());
    assert!(cache.get(&key("live2.")).is_some());
    assert!(cache.get(&key("old1.")).is_none());
    assert!(cache.get(&key("old2.")).is_none());
}

#[test]
fn periodic_purge_with_no_budget_removes_nothing() {
    let mut cache = Cache::new(CacheConfiguration::new(100, 0));
    cache.put(key("old1."), entry("old1.", 0, 1));
    assert_eq!(cache.periodic_purge(2_000), (1, 0));
}

#[test]
fn forward_entry_becomes_authoritative_response() {
    let c = ForwardDomainConfiguration::new("example.local".to_string(), [10, 0, 0, 1], 300);
    let m = forward_domain_configuration_to_message(&c).unwrap();
    assert_eq!(m.message_type(), MessageType::Response);
    assert_eq!(m.response_code(), ResponseCode::NoError);
    assert!(m.authoritative());
    assert_eq!(m.queries().len(), 1);
    assert_eq!(m.queries()[0].name(), &Name::from_str("example.local").unwrap());
    assert_eq!(m.queries()[0].query_type(), RecordType::A);
    assert_eq!(m.queries()[0].query_class(), DNSClass::IN);
    assert_eq!(m.answers().len(), 1);
    assert_eq!(m.answers()[0].name(), &Name::from_str("example.local").unwrap());
    assert_eq!(m.answers()[0].ttl(), 300);
    assert_eq!(m.answers()[0].record_type(), RecordType::A);
    match m.answers()[0].rdata() {
        RData::A(ip) => assert_eq!(ip.octets(), [10, 0, 0, 1]),
        _ => panic!("an address record was expected"),
    }
}

#[test]
fn reverse_entry_becomes_pointer_response() {
    let c = ReverseDomainConfiguration::new(
        "1.0.0.10.in-addr.arpa.".to_string(),
        "example.local.".to_string(),
        120,
    );
    let m = reverse_domain_configuration_to_message(&c).unwrap();
    assert_eq!(m.message_type(), MessageType::Response);
    assert_eq!(m.response_code(), ResponseCode::NoError);
    assert!(m.authoritative());
    assert_eq!(m.queries().len(), 1);
    assert_eq!(m.queries()[0].query_type(), RecordType::PTR);
    assert_eq!(m.answers().len(), 1);
    assert_eq!(m.answers()[0].ttl(), 120);
    match m.answers()[0].rdata() {
        RData::PTR(name) => assert_eq!(name, &Name::from_str("example.local.").unwrap()),
        _ => panic!("a pointer record was expected"),
    }
}

#[test]
fn local_table_errors() {
    let long_label = "a".repeat(64);
    let bad_forward = ForwardDomainConfiguration::new(format!("{}.local", long_label), [10, 0, 0, 1], 300);
    assert_eq!(
        forward_domain_configuration_to_message(&bad_forward).unwrap_err(),
        LocalDomainError::InvalidForwardName
    );
    let bad_owner = ReverseDomainConfiguration::new(format!("{}.arpa", long_label), "ok.local".to_string(), 1);
    assert_eq!(
        reverse_domain_configuration_to_message(&bad_owner).unwrap_err(),
        LocalDomainError::InvalidReverseAddress
    );
    let bad_target = ReverseDomainConfiguration::new("1.0.0.10.in-addr.arpa".to_string(), format!("{}.local", long_label), 1);
    assert_eq!(
        reverse_domain_configuration_to_message(&bad_target).unwrap_err(),
        LocalDomainError::InvalidReverseName
    );
    assert!(matches!(
        LocalDomainCache::new(vec![bad_forward], vec![]),
        Err(LocalDomainError::InvalidForwardName)
    ));
    assert!(matches!(
        LocalDomainCache::new(vec![], vec![bad_target]),
        Err(LocalDomainError::InvalidReverseName)
    ));
    assert_eq!(LocalDomainError::InvalidForwardName.message(), "invalid forward name");
    assert_eq!(LocalDomainError::InvalidReverseAddress.message(), "invalid reverse_address");
    assert_eq!(LocalDomainError::InvalidReverseName.message(), "invalid reverse name");
}

#[test]
fn local_table_lookup() {
    let table = LocalDomainCache::new(
        vec![
            ForwardDomainConfiguration::new("one.local".to_string(), [10, 0, 0, 1], 300),
            ForwardDomainConfiguration::new("two.local".to_string(), [10, 0, 0, 2], 300),
            ForwardDomainConfiguration::new("ONE.local".to_string(), [10, 0, 0, 3], 60),
        ],
        vec![ReverseDomainConfiguration::new("1.0.0.10.in-addr.arpa".to_string(), "one.local".to_string(), 30)],
    )
    .ok()
    .unwrap();
    assert_eq!(table.len(), 4);
    let k = RequestKey::from_message(&query("One.Local", RecordType::A, 5)).unwrap();
    let m = table.get_response_message(&k).unwrap();
    assert_eq!(m.answers()[0].ttl(), 60);
    match m.answers()[0].rdata() {
        RData::A(ip) => assert_eq!(ip.octets(), [10, 0, 0, 3]),
        _ => panic!("an address record was expected"),
    }
    let k = RequestKey::from_message(&query("1.0.0.10.in-addr.arpa", RecordType::PTR, 5)).unwrap();
    assert_eq!(table.get_response_message(&k).unwrap().answers()[0].ttl(), 30);
    let k = RequestKey::from_message(&query("one.local", RecordType::PTR, 5)).unwrap();
    assert!(table.get_response_message(&k).is_none());
    let k = RequestKey::from_message(&query("three.local", RecordType::A, 5)).unwrap();
    assert!(table.get_response_message(&k).is_none());
}

#[test]
fn http_outcome_is_classified() {
    assert!(matches!(
        classify_http_response(200, vec![1, 2, 3]),
        DOHResponse::HTTPRequestSuccess(body) if body == vec![1, 2, 3]
    ));
    assert!(matches!(classify_http_response(200, vec![]), DOHResponse::HTTPRequestError));
    assert!(matches!(classify_http_response(500, vec![1, 2, 3]), DOHResponse::HTTPRequestError));
    assert!(matches!(classify_http_response(204, vec![]), DOHResponse::HTTPRequestError));
    assert!(matches!(classify_http_response(404, vec![1]), DOHResponse::HTTPRequestError));
}

#[test]
fn counters_count() {
    let mut metrics = Metrics::new();
    assert_eq!(metrics.cache_hits, 0);
    metrics.increment_cache_hits();
    metrics.increment_cache_misses();
    metrics.increment_cache_misses();
    metrics.increment_udp_requests();
    metrics.increment_tcp_requests();
    metrics.increment_upstream_errors();
    assert_eq!(
        metrics,
        Metrics { cache_hits: 1, cache_misses: 2, udp_requests: 1, tcp_requests: 1, upstream_errors: 1 }
    );
    metrics.upstream_errors = u64::MAX;
    metrics.increment_upstream_errors();
    assert_eq!(metrics.upstream_errors, u64::MAX);
}

#[test]
fn configuration_getters() {
    let server = ServerConfiguration::new("127.0.0.1:10053".to_string());
    assert_eq!(server.listen_address(), "127.0.0.1:10053");
    let cache = CacheConfiguration::new(10000, 100);
    assert_eq!(cache.max_size(), 10000);
    assert_eq!(cache.max_purges_per_timer_pop(), 100);
    let client = ClientConfiguration::new("https://dns.example/dns-query".to_string(), 5);
    assert_eq!(client.remote_url(), "https://dns.example/dns-query");
    assert_eq!(client.request_timeout_seconds(), 5);
    let proxy = ProxyConfiguration::new(10, 30);
    assert_eq!(proxy.clamp_min_ttl_seconds(), 10);
    assert_eq!(proxy.clamp_max_ttl_seconds(), 30);
    let forward = ForwardDomainConfiguration::new("a.local".to_string(), [1, 2, 3, 4], 9);
    assert_eq!(forward.name(), "a.local");
    assert_eq!(forward.ip_address(), [1, 2, 3, 4]);
    assert_eq!(forward.ttl_seconds(), 9);
    let reverse = ReverseDomainConfiguration::new("4.3.2.1.in-addr.arpa".to_string(), "a.local".to_string(), 8);
    assert_eq!(reverse.reverse_address(), "4.3.2.1.in-addr.arpa");
    assert_eq!(reverse.name(), "a.local");
    assert_eq!(reverse.ttl_seconds(), 8);
}

#[test]
fn configuration_bounds_are_checked() {
    let mut c = doh_proxy::config::Configuration {
        server_configuration: ServerConfiguration::new("127.0.0.1:10053".to_string()),
        cache_configuration: CacheConfiguration::new(1, 0),
        client_configuration: ClientConfiguration::new("https://dns.example/dns-query".to_string(), 5),
        proxy_configuration: ProxyConfiguration::new(30, 3600),
        forward_domain_configurations: vec![],
        reverse_domain_configurations: vec![],
        timer_interval_seconds: 1,
    };
    assert!(c.is_valid());
    c.timer_interval_seconds = 0;
    assert!(!c.is_valid());
    c.timer_interval_seconds = 10;
    c.cache_configuration = CacheConfiguration::new(0, 5);
    assert!(!c.is_valid());
}

#[test]
fn key_of_name_without_wire_form_is_invalid() {
    let q = Question { name: None, rtype: 1, class: 1 };
    let k = RequestKey::from_question(&q);
    assert!(!k.valid());
    assert_eq!(k.name(), &Vec::<u8>::new());
    assert_eq!(k.record_type(), 1);
    assert_eq!(k.record_class(), 1);
}

#[test]
fn octets_are_lowercased() {
    assert_eq!(lowercase_octets(&vec![3, b'W', b'w', b'W', 0]), vec![3, b'w', b'w', b'w', 0]);
    assert_eq!(lowercase_octets(&vec![]), Vec::<u8>::new());
    assert_eq!(lowercase_octets(&vec![b'@', b'[', b'1', 255]), vec![b'@', b'[', b'1', 255]);
}
