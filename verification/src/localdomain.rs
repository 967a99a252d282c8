//! The table of local domains: canned authoritative responses for the
//! configured address and pointer names, built once and then only read.

use vstd::prelude::*;
use trust_dns_proto::op::Message;
use trust_dns_proto::rr::Name;
use crate::config::{ForwardDomainConfiguration, ReverseDomainConfiguration};
use crate::message::{
    add_address_answer, add_pointer_answer, clone_message, first_question_of, new_question_message,
    parse_name, parsed_name, question_message, set_message_authoritative, set_message_rcode,
    set_message_type, with_address_answer, with_authoritative, with_message_type,
    with_pointer_answer, with_response_code, RCODE_NO_ERROR, TYPE_A, TYPE_PTR,
};
use crate::request_key::{key_of, KeyError, RequestKey, RequestKeyView};

verus! {

/// Why a table could not be built.
#[derive(Debug, Clone, Copy, PartialEq, Eq, Structural)]
pub enum LocalDomainError {
    /// The name of an address entry is no domain name.
    InvalidForwardName,
    /// The owner name of a pointer entry is no domain name.
    InvalidReverseAddress,
    /// The target name of a pointer entry is no domain name.
    InvalidReverseName,
    /// A response that was built holds no question to key it by.
    InvalidRequestKey,
}

impl LocalDomainError {
    /// The error in words.
    pub fn message(&self) -> (r: &'static str)
        ensures
            r@ == match *self {
                LocalDomainError::InvalidForwardName => "invalid forward name"@,
                LocalDomainError::InvalidReverseAddress => "invalid reverse_address"@,
                LocalDomainError::InvalidReverseName => "invalid reverse name"@,
                LocalDomainError::InvalidRequestKey => "invalid local domain request_key"@,
            },
    {
        match self {
            LocalDomainError::InvalidForwardName => "invalid forward name",
            LocalDomainError::InvalidReverseAddress => "invalid reverse_address",
            LocalDomainError::InvalidReverseName => "invalid reverse name",
            LocalDomainError::InvalidRequestKey => "invalid local domain request_key",
        }
    }
}

/// An authoritative response without error that holds the one question.
pub open spec fn response_to_question(name: Name, rtype: u16) -> Message {
    with_authoritative(
        with_response_code(with_message_type(question_message(name, rtype), true), RCODE_NO_ERROR),
        true,
    )
}

/// The response for an address entry whose name parsed as `name`.
pub open spec fn forward_message(name: Name, ip: [u8; 4], ttl: u32) -> Message {
    with_address_answer(response_to_question(name, TYPE_A), name, ttl, ip[0], ip[1], ip[2], ip[3])
}

/// The response for a pointer entry whose names parsed as `owner` and `target`.
pub open spec fn reverse_message(owner: Name, target: Name, ttl: u32) -> Message {
    with_pointer_answer(response_to_question(owner, TYPE_PTR), owner, ttl, target)
}

/// The response for an address entry, or why there is none.
pub open spec fn forward_response(c: ForwardDomainConfiguration) -> Result<Message, LocalDomainError> {
    match parsed_name(c.name@) {
        Some(name) => Ok(forward_message(name, c.ip_address, c.ttl_seconds)),
        None => Err(LocalDomainError::InvalidForwardName),
    }
}

/// The response for a pointer entry, or why there is none.
pub open spec fn reverse_response(c: ReverseDomainConfiguration) -> Result<Message, LocalDomainError> {
    match parsed_name(c.reverse_address@) {
        Some(owner) => match parsed_name(c.name@) {
            Some(target) => Ok(reverse_message(owner, target, c.ttl_seconds)),
            None => Err(LocalDomainError::InvalidReverseName),
        },
        None => Err(LocalDomainError::InvalidReverseAddress),
    }
}

/// A response with the key of its first question, or why there is none.
pub open spec fn keyed(response: Result<Message, LocalDomainError>) -> Result<(RequestKeyView, Message), LocalDomainError> {
    match response {
        Ok(m) => match first_question_of(m) {
            Some(q) => Ok((key_of(q), m)),
            None => Err(LocalDomainError::InvalidRequestKey),
        },
        Err(e) => Err(e),
    }
}

/// Whether the entries are those of the configured entries: one for each,
/// address entries first, each under the key of its response's question.
pub open spec fn built_from(
    entries: Seq<LocalDomainEntry>,
    f: Seq<ForwardDomainConfiguration>,
    v: Seq<ReverseDomainConfiguration>,
) -> bool {
    &&& entries.len() == f.len() + v.len()
    &&& forall|i: int|
        0 <= i < f.len() ==> keyed(forward_response(#[trigger] f[i])) == Ok::<
            (RequestKeyView, Message),
            LocalDomainError,
        >((entries[i].key@, entries[i].message))
    &&& forall|j: int|
        0 <= j < v.len() ==> keyed(reverse_response(#[trigger] v[j])) == Ok::<
            (RequestKeyView, Message),
            LocalDomainError,
        >((entries[f.len() + j].key@, entries[f.len() + j].message))
}

/// Whether `e` is the error of the first configured entry that gives no
/// response, address entries first.
pub open spec fn fails_with(
    f: Seq<ForwardDomainConfiguration>,
    v: Seq<ReverseDomainConfiguration>,
    e: LocalDomainError,
) -> bool {
    ||| exists|i: int|
        0 <= i < f.len() && keyed(forward_response(#[trigger] f[i])) == Err::<
            (RequestKeyView, Message),
            LocalDomainError,
        >(e) && forall|k: int| 0 <= k < i ==> keyed(forward_response(#[trigger] f[k])).is_ok()
    ||| (forall|k: int| 0 <= k < f.len() ==> keyed(forward_response(#[trigger] f[k])).is_ok())
        && exists|j: int|
        0 <= j < v.len() && keyed(reverse_response(#[trigger] v[j])) == Err::<
            (RequestKeyView, Message),
            LocalDomainError,
        >(e) && forall|k: int| 0 <= k < j ==> keyed(reverse_response(#[trigger] v[k])).is_ok()
}

/// Whether every configured name is a domain name.
pub open spec fn names_parse(
    f: Seq<ForwardDomainConfiguration>,
    v: Seq<ReverseDomainConfiguration>,
) -> bool {
    &&& forall|i: int| 0 <= i < f.len() ==> forward_response(#[trigger] f[i]).is_ok()
    &&& forall|j: int| 0 <= j < v.len() ==> reverse_response(#[trigger] v[j]).is_ok()
}

/// One entry of the table.
pub struct LocalDomainEntry {
    pub key: RequestKey,
    pub message: Message,
}

/// The response that a table gives for a key: that of the last entry under
/// the key, so that a later entry stands in place of an earlier one.
pub open spec fn lookup(entries: Seq<LocalDomainEntry>, key: RequestKeyView) -> Option<Message>
    decreases entries.len(),
{
    if entries.len() == 0 {
        None
    } else if entries.last().key@ == key {
        Some(entries.last().message)
    } else {
        lookup(entries.drop_last(), key)
    }
}

/// Builds the response for an address entry: a response without error,
/// authoritative, with the question for the name's address and the one
/// answer.
pub fn forward_domain_configuration_to_message(c: &ForwardDomainConfiguration) -> (r: Result<Message, LocalDomainError>)
    ensures
        r == forward_response(*c),
        r matches Ok(m) ==> (first_question_of(m) matches Some(q) && q.rtype == TYPE_A && q.class
            == 1),
{
    let name = match parse_name(c.name.as_str()) {
        Some(name) => name,
        None => { return Err(LocalDomainError::InvalidForwardName); },
    };
    let mut message = new_question_message(&name, TYPE_A);
    set_message_type(&mut message, true);
    set_message_rcode(&mut message, RCODE_NO_ERROR);
    set_message_authoritative(&mut message, true);
    let ip = c.ip_address;
    add_address_answer(&mut message, &name, c.ttl_seconds, ip[0], ip[1], ip[2], ip[3]);
    Ok(message)
}

/// Builds the response for a pointer entry: a response without error,
/// authoritative, with the question for the owner's pointer and the one
/// answer.
pub fn reverse_domain_configuration_to_message(c: &ReverseDomainConfiguration) -> (r: Result<Message, LocalDomainError>)
    ensures
        r == reverse_response(*c),
        r matches Ok(m) ==> (first_question_of(m) matches Some(q) && q.rtype == TYPE_PTR && q.class
            == 1),
{
    let owner = match parse_name(c.reverse_address.as_str()) {
        Some(name) => name,
        None => { return Err(LocalDomainError::InvalidReverseAddress); },
    };
    let target = match parse_name(c.name.as_str()) {
        Some(name) => name,
        None => { return Err(LocalDomainError::InvalidReverseName); },
    };
    let mut message = new_question_message(&owner, TYPE_PTR);
    set_message_type(&mut message, true);
    set_message_rcode(&mut message, RCODE_NO_ERROR);
    set_message_authoritative(&mut message, true);
    add_pointer_answer(&mut message, &owner, c.ttl_seconds, &target);
    Ok(message)
}

/// Keys a response that was built by its first question.
pub fn entry_for(response: Result<Message, LocalDomainError>) -> (r: Result<LocalDomainEntry, LocalDomainError>)
    ensures
        match keyed(response) {
            Ok(pair) => r.is_ok() && r.unwrap().key@ == pair.0 && r.unwrap().message == pair.1,
            Err(e) => r == Err::<LocalDomainEntry, LocalDomainError>(e),
        },
{
    match response {
        Ok(message) => match RequestKey::from_message(&message) {
            Ok(key) => Ok(LocalDomainEntry { key, message }),
            Err(KeyError::NoQueries) => Err(LocalDomainError::InvalidRequestKey),
        },
        Err(e) => Err(e),
    }
}

/// The table of local domains.
pub struct LocalDomainCache {
    cache: Vec<LocalDomainEntry>,
}

impl LocalDomainCache {
    /// The entries in the order in which they were configured: the address
    /// entries, then the pointer entries.
    pub closed spec fn entries(&self) -> Seq<LocalDomainEntry> {
        self.cache@
    }

    /// Builds the table. It holds one entry for each configured entry,
    /// address entries first, each under the key of its response's question.
    /// The first entry that gives no response fails the whole: the table is
    /// built whenever every configured name is a domain name.
    pub fn new(
        forward_domain_configurations: Vec<ForwardDomainConfiguration>,
        reverse_domain_configurations: Vec<ReverseDomainConfiguration>,
    ) -> (r: Result<Self, LocalDomainError>)
        ensures
            match r {
                Ok(table) => built_from(
                    table.entries(),
                    forward_domain_configurations@,
                    reverse_domain_configurations@,
                ),
                Err(e) => fails_with(forward_domain_configurations@, reverse_domain_configurations@, e),
            },
            names_parse(forward_domain_configurations@, reverse_domain_configurations@)
                ==> r.is_ok(),
            r matches Err(e) ==> e != LocalDomainError::InvalidRequestKey,
    {
        let mut cache: Vec<LocalDomainEntry> = Vec::new();
        let ghost f = forward_domain_configurations@;
        let ghost v = reverse_domain_configurations@;
        let mut i: usize = 0;
        while i < forward_domain_configurations.len()
            invariant
                f == forward_domain_configurations@,
                i <= f.len(),
                cache@.len() == i,
                forall|k: int| 0 <= k < i ==> keyed(forward_response(#[trigger] f[k]))
                    == Ok::<(RequestKeyView, Message), LocalDomainError>((cache@[k].key@, cache@[k].message)),
            decreases f.len() - i,
        {
            let response = forward_domain_configuration_to_message(&forward_domain_configurations[i]);
            match entry_for(response) {
                Ok(entry) => {
                    cache.push(entry);
                },
                Err(e) => {
                    assert(keyed(forward_response(f[i as int])) == Err::<(RequestKeyView, Message), LocalDomainError>(e));
                    return Err(e);
                },
            }
            i += 1;
        }
        let mut j: usize = 0;
        while j < reverse_domain_configurations.len()
            invariant
                f == forward_domain_configurations@,
                v == reverse_domain_configurations@,
                j <= v.len(),
                cache@.len() == f.len() + j,
                forall|k: int| 0 <= k < f.len() ==> keyed(forward_response(#[trigger] f[k]))
                    == Ok::<(RequestKeyView, Message), LocalDomainError>((cache@[k].key@, cache@[k].message)),
                forall|k: int| 0 <= k < j ==> keyed(reverse_response(#[trigger] v[k]))
                    == Ok::<(RequestKeyView, Message), LocalDomainError>(
                    (cache@[f.len() + k].key@, cache@[f.len() + k].message),
                ),
            decreases v.len() - j,
        {
            let response = reverse_domain_configuration_to_message(&reverse_domain_configurations[j]);
            match entry_for(response) {
                Ok(entry) => {
                    cache.push(entry);
                },
                Err(e) => {
                    assert(keyed(reverse_response(v[j as int])) == Err::<(RequestKeyView, Message), LocalDomainError>(e));
                    return Err(e);
                },
            }
            j += 1;
        }
        Ok(LocalDomainCache { cache })
    }

    /// The number of entries.
    pub fn len(&self) -> (r: usize)
        ensures
            r == self.entries().len(),
    {
        self.cache.len()
    }

    /// A copy of the response stored under a key, if there is one.
    pub fn get_response_message(&self, request_key: &RequestKey) -> (r: Option<Message>)
        ensures
            r == lookup(self.entries(), request_key@),
    {
        let mut i: usize = self.cache.len();
        assert(self.cache@.take(i as int) =~= self.cache@);
        while i > 0
            invariant
                i <= self.cache@.len(),
                lookup(self.cache@, request_key@) == lookup(self.cache@.take(i as int), request_key@),
            decreases i,
        {
            let ghost prefix = self.cache@.take(i as int);
            assert(prefix.last() == self.cache@[i - 1]);
            assert(prefix.drop_last() =~= self.cache@.take(i - 1));
            if self.cache[i - 1].key.same_as(request_key) {
                return Some(clone_message(&self.cache[i - 1].message));
            }
            i -= 1;
        }
        None
    }
}

} // verus!
