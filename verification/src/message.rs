//! DNS messages. A message is a `trust_dns_proto::op::Message`; this module
//! declares that type and gives a contract to each of its operations that the
//! resolver uses. None of these contracts is proved: each states what the
//! named function of `trust_dns_proto` does.

use vstd::prelude::*;
use std::str::FromStr;
use trust_dns_proto::op::{Message, MessageType, Query};
use trust_dns_proto::rr::{Name, RData, RecordType};
use trust_dns_proto::rr::resource::Record;
use trust_dns_proto::serialize::binary::BinEncodable;

verus! {

/// Response code of a successful answer.
pub const RCODE_NO_ERROR: u16 = 0;

/// Response code of a server failure.
pub const RCODE_SERV_FAIL: u16 = 2;

/// Response code of a name that does not exist.
pub const RCODE_NX_DOMAIN: u16 = 3;

/// Record type of an IPv4 address.
pub const TYPE_A: u16 = 1;

/// Record type of a domain name pointer.
pub const TYPE_PTR: u16 = 12;

/// A DNS message of `trust_dns_proto`, opaque to the verifier.
#[verifier::external_type_specification]
#[verifier::external_body]
pub struct ExMessage(Message);

/// A domain name of `trust_dns_proto`, opaque to the verifier.
#[verifier::external_type_specification]
#[verifier::external_body]
pub struct ExName(Name);

/// One entry of the question section as plain values: the owner name in
/// uncompressed wire form, or `None` where the name has no wire form, the
/// numeric type and the numeric class.
pub struct Question {
    pub name: Option<Vec<u8>>,
    pub rtype: u16,
    pub class: u16,
}

/// The mathematical value of a [`Question`].
pub struct QuestionView {
    pub name: Option<Seq<u8>>,
    pub rtype: u16,
    pub class: u16,
}

impl View for Question {
    type V = QuestionView;

    open spec fn view(&self) -> QuestionView {
        QuestionView {
            name: match self.name {
                Some(octets) => Some(octets@),
                None => None,
            },
            rtype: self.rtype,
            class: self.class,
        }
    }
}

/// Whether two messages have the same id, response code and first question.
pub open spec fn same_header(a: Message, b: Message) -> bool {
    id_of(a) == id_of(b) && rcode_of(a) == rcode_of(b) && first_question_of(a) == first_question_of(
        b,
    )
}

/// What `Message::from_vec` makes of a buffer: the message, or `None` where
/// it reports an error.
pub uninterp spec fn decoded(bytes: Seq<u8>) -> Option<Message>;

/// Whether the bytes are a wire form of the message, as `Message::to_vec`
/// gives one. A message may have more than one: the options of its EDNS
/// record are written in no fixed order.
pub uninterp spec fn is_encoding(m: Message, bytes: Seq<u8>) -> bool;

/// The transaction id that `Message::id` reads.
pub uninterp spec fn id_of(m: Message) -> u16;

/// The number of the response code that `Message::response_code` reads.
pub uninterp spec fn rcode_of(m: Message) -> u16;

/// The first entry of the question section, if there is one.
pub uninterp spec fn first_question_of(m: Message) -> Option<QuestionView>;

/// The TTLs of the records of the answer, authority and additional sections,
/// in that order.
pub uninterp spec fn ttls_of(m: Message) -> Seq<u32>;

/// The message after `Message::set_id`.
pub uninterp spec fn with_id(m: Message, id: u16) -> Message;

/// The message after `Message::set_message_type`; `response` tells a response
/// from a query.
pub uninterp spec fn with_message_type(m: Message, response: bool) -> Message;

/// The message after `Message::set_response_code` with the code of a number.
pub uninterp spec fn with_response_code(m: Message, code: u16) -> Message;

/// The message after `Message::set_authoritative`.
pub uninterp spec fn with_authoritative(m: Message, authoritative: bool) -> Message;

/// The message after every record of the three record sections got the TTL at
/// its position in `ttls`.
pub uninterp spec fn with_ttls(m: Message, ttls: Seq<u32>) -> Message;

/// What `Name::from_str` makes of a text: the name, or `None` where it
/// reports an error.
pub uninterp spec fn parsed_name(text: Seq<char>) -> Option<Name>;

/// A new message that holds one question, for a name and a type in class IN.
pub uninterp spec fn question_message(name: Name, rtype: u16) -> Message;

/// The message after an address record for `name` was added to its answers.
pub uninterp spec fn with_address_answer(m: Message, name: Name, ttl: u32, a: u8, b: u8, c: u8, d: u8) -> Message;

/// The message after a pointer record for `name` was added to its answers.
pub uninterp spec fn with_pointer_answer(m: Message, name: Name, ttl: u32, target: Name) -> Message;

/// Calls `Message::from_vec`. The result is the message that the buffer
/// decodes to, and `None` where decoding fails.
#[verifier::external_body]
pub(crate) fn decode_message(buffer: &[u8]) -> (r: Option<Message>)
    ensures
        r == decoded(buffer@),
{
    Message::from_vec(buffer).ok()
}

/// Calls `Message::to_vec`. Bytes that come back are a wire form of the
/// message; `None` means that encoding failed. Nothing is said of when it
/// fails, nor of which wire form comes back.
#[verifier::external_body]
pub(crate) fn encode_message(m: &Message) -> (r: Option<Vec<u8>>)
    ensures
        r matches Some(bytes) ==> is_encoding(*m, bytes@),
{
    m.to_vec().ok()
}

/// Calls `Message::clone`. The copy equals the message.
#[verifier::external_body]
pub(crate) fn clone_message(m: &Message) -> (r: Message)
    ensures
        r == *m,
{
    m.clone()
}

/// Calls `Message::id`.
#[verifier::external_body]
pub(crate) fn message_id(m: &Message) -> (r: u16)
    ensures
        r == id_of(*m),
{
    m.id()
}

/// Calls `Message::response_code` and gives the code's number.
#[verifier::external_body]
pub(crate) fn message_rcode(m: &Message) -> (r: u16)
    ensures
        r == rcode_of(*m),
{
    m.response_code().into()
}

/// Reads the first entry of `Message::queries`: its name by
/// `Name::to_bytes` (`None` where that fails), its type and its class by
/// their numbers. `None` means that the question section is empty.
#[verifier::external_body]
pub(crate) fn first_question(m: &Message) -> (r: Option<Question>)
    ensures
        match r {
            Some(q) => first_question_of(*m) == Some(q@),
            None => first_question_of(*m).is_none(),
        },
{
    let q = m.queries().first()?;
    Some(Question {
        name: q.name().to_bytes().ok(),
        rtype: q.query_type().into(),
        class: q.query_class().into(),
    })
}

/// Reads `Record::ttl` of each record of `Message::answers`,
/// `Message::name_servers` and `Message::additionals`, in that order.
#[verifier::external_body]
pub(crate) fn record_ttls(m: &Message) -> (r: Vec<u32>)
    ensures
        r@ == ttls_of(*m),
{
    m.answers().iter().chain(m.name_servers()).chain(m.additionals()).map(|record| record.ttl()).collect()
}

/// Takes the records of each of the three record sections out of the message,
/// calls `Record::set_ttl` on each with the TTL at its position, and adds it
/// to its section again. Afterwards the message's TTLs are the given ones,
/// and a message that had these TTLs before is as it was. Nothing but TTLs
/// changes: id, response code and first question stay, and with the old TTLs
/// put back the message would be the old one.
#[verifier::external_body]
pub(crate) fn set_record_ttls(m: &mut Message, ttls: &Vec<u32>)
    requires
        ttls@.len() == ttls_of(*old(m)).len(),
    ensures
        *final(m) == with_ttls(*old(m), ttls@),
        ttls_of(*final(m)) == ttls@,
        ttls@ == ttls_of(*old(m)) ==> *final(m) == *old(m),
        same_header(*final(m), *old(m)),
        with_ttls(*final(m), ttls_of(*old(m))) == *old(m),
{
    let mut next = ttls.iter();
    for mut record in m.take_answers() {
        record.set_ttl(*next.next().unwrap());
        m.add_answer(record);
    }
    for mut record in m.take_name_servers() {
        record.set_ttl(*next.next().unwrap());
        m.add_name_server(record);
    }
    for mut record in m.take_additionals() {
        record.set_ttl(*next.next().unwrap());
        m.add_additional(record);
    }
}

/// Calls `Message::set_id`. The message then has that id; its TTLs, response
/// code and first question stay.
#[verifier::external_body]
pub(crate) fn set_message_id(m: &mut Message, id: u16)
    ensures
        *final(m) == with_id(*old(m), id),
        id_of(*final(m)) == id,
        ttls_of(*final(m)) == ttls_of(*old(m)),
        rcode_of(*final(m)) == rcode_of(*old(m)),
        first_question_of(*final(m)) == first_question_of(*old(m)),
{
    m.set_id(id);
}

/// Calls `Message::set_message_type`, with `MessageType::Response` for `true`
/// and `MessageType::Query` for `false`. Id, response code, first question
/// and TTLs stay.
#[verifier::external_body]
pub(crate) fn set_message_type(m: &mut Message, response: bool)
    ensures
        *final(m) == with_message_type(*old(m), response),
        same_header(*final(m), *old(m)),
        ttls_of(*final(m)) == ttls_of(*old(m)),
{
    m.set_message_type(if response { MessageType::Response } else { MessageType::Query });
}

/// Calls `Message::set_response_code` with the `ResponseCode` of a number.
/// Id, first question and TTLs stay.
#[verifier::external_body]
pub(crate) fn set_message_rcode(m: &mut Message, code: u16)
    ensures
        *final(m) == with_response_code(*old(m), code),
        id_of(*final(m)) == id_of(*old(m)),
        first_question_of(*final(m)) == first_question_of(*old(m)),
        ttls_of(*final(m)) == ttls_of(*old(m)),
{
    m.set_response_code(code.into());
}

/// Calls `Message::set_authoritative`. Id, response code, first question and
/// TTLs stay.
#[verifier::external_body]
pub(crate) fn set_message_authoritative(m: &mut Message, authoritative: bool)
    ensures
        *final(m) == with_authoritative(*old(m), authoritative),
        same_header(*final(m), *old(m)),
        ttls_of(*final(m)) == ttls_of(*old(m)),
{
    m.set_authoritative(authoritative);
}

/// Calls `Name::from_str`. The result is the name that the text parses to,
/// and `None` where parsing fails.
#[verifier::external_body]
pub(crate) fn parse_name(text: &str) -> (r: Option<Name>)
    ensures
        r == parsed_name(text@),
{
    Name::from_str(text).ok()
}

/// Calls `Message::new`, and `Message::add_query` with the `Query::query` of
/// the name and the `RecordType` of the number. The new message has a first
/// question, of that type and of class IN, which is 1.
#[verifier::external_body]
pub(crate) fn new_question_message(name: &Name, rtype: u16) -> (r: Message)
    ensures
        r == question_message(*name, rtype),
        first_question_of(r).is_some(),
        first_question_of(r).unwrap().rtype == rtype,
        first_question_of(r).unwrap().class == 1,
{
    let mut m = Message::new();
    m.add_query(Query::query(name.clone(), RecordType::from(rtype)));
    m
}

/// Calls `Message::add_answer` with the `Record::from_rdata` of the name, the
/// TTL and the address `a.b.c.d` as `RData::A`. Id, response code and first
/// question stay.
#[verifier::external_body]
pub(crate) fn add_address_answer(m: &mut Message, name: &Name, ttl: u32, a: u8, b: u8, c: u8, d: u8)
    ensures
        *final(m) == with_address_answer(*old(m), *name, ttl, a, b, c, d),
        same_header(*final(m), *old(m)),
{
    m.add_answer(Record::from_rdata(name.clone(), ttl, RData::A([a, b, c, d].into())));
}

/// Calls `Message::add_answer` with the `Record::from_rdata` of the name, the
/// TTL and the target name as `RData::PTR`. Id, response code and first
/// question stay.
#[verifier::external_body]
pub(crate) fn add_pointer_answer(m: &mut Message, name: &Name, ttl: u32, target: &Name)
    ensures
        *final(m) == with_pointer_answer(*old(m), *name, ttl, *target),
        same_header(*final(m), *old(m)),
{
    m.add_answer(Record::from_rdata(name.clone(), ttl, RData::PTR(target.clone())));
}

} // verus!
