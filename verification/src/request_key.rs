//! The key under which a query is looked up: the owner name of the first
//! question, lowercased, with the question's type and class.

use vstd::prelude::*;
use trust_dns_proto::op::Message;
use crate::message::{first_question, first_question_of, Question, QuestionView};

verus! {

/// The lowercase form of an ASCII upper-case letter; any other octet as it is.
pub open spec fn lower_octet(b: u8) -> u8 {
    if 65 <= b && b <= 90 {
        (b + 32) as u8
    } else {
        b
    }
}

/// A name with each octet lowercased.
pub open spec fn lowercased(name: Seq<u8>) -> Seq<u8> {
    Seq::new(name.len(), |i: int| lower_octet(name[i]))
}

/// Whether the octets from position `from` on are labels of 1 to 63 octets,
/// each behind its length, closed by the root label at the very end.
pub open spec fn labels_from(name: Seq<u8>, from: int) -> bool
    decreases name.len() - from,
{
    if from < 0 || from >= name.len() {
        false
    } else if name[from] == 0 {
        from == name.len() - 1
    } else if name[from] > 63 || from + 1 + name[from] >= name.len() {
        false
    } else {
        labels_from(name, from + 1 + name[from])
    }
}

/// Whether octets are a domain name in uncompressed wire form: well-formed
/// labels, at most 255 octets in all.
pub open spec fn is_wire_name(name: Seq<u8>) -> bool {
    name.len() <= 255 && labels_from(name, 0)
}

/// The mathematical value of a [`RequestKey`]: equality of keys is equality
/// of these three fields.
pub struct RequestKeyView {
    pub name: Seq<u8>,
    pub rtype: u16,
    pub class: u16,
}

/// The owner name of a question in wire form; empty where it has none, which
/// is no well-formed name.
pub open spec fn owner_octets(q: QuestionView) -> Seq<u8> {
    match q.name {
        Some(octets) => octets,
        None => Seq::empty(),
    }
}

/// The key of a question.
pub open spec fn key_of(q: QuestionView) -> RequestKeyView {
    RequestKeyView { name: lowercased(owner_octets(q)), rtype: q.rtype, class: q.class }
}

/// Why no key could be made.
#[derive(Debug, Clone, Copy, PartialEq, Eq, Structural)]
pub enum KeyError {
    /// The message holds no question.
    NoQueries,
}

/// A fingerprint of a DNS query.
#[derive(Debug)]
pub struct RequestKey {
    name: Vec<u8>,
    rtype: u16,
    class: u16,
}

impl View for RequestKey {
    type V = RequestKeyView;

    closed spec fn view(&self) -> RequestKeyView {
        RequestKeyView { name: self.name@, rtype: self.rtype, class: self.class }
    }
}

/// Lowercases one octet.
pub fn to_lower_octet(b: u8) -> (r: u8)
    ensures
        r == lower_octet(b),
{
    if 65 <= b && b <= 90 {
        b + 32
    } else {
        b
    }
}

/// Whether two byte strings hold the same octets.
pub fn same_octets(a: &Vec<u8>, b: &Vec<u8>) -> (r: bool)
    ensures
        r == (a@ == b@),
{
    if a.len() != b.len() {
        return false;
    }
    let mut i: usize = 0;
    while i < a.len()
        invariant
            a.len() == b.len(),
            i <= a.len(),
            forall|j: int| 0 <= j < i ==> a@[j] == b@[j],
        decreases a.len() - i,
    {
        if a[i] != b[i] {
            return false;
        }
        i += 1;
    }
    assert(a@ =~= b@);
    true
}

/// A copy of a byte string.
pub fn copy_octets(a: &Vec<u8>) -> (r: Vec<u8>)
    ensures
        r@ == a@,
{
    let mut out: Vec<u8> = Vec::new();
    let mut i: usize = 0;
    while i < a.len()
        invariant
            i <= a.len(),
            out@ == a@.take(i as int),
        decreases a.len() - i,
    {
        out.push(a[i]);
        assert(a@.take(i + 1) =~= a@.take(i as int).push(a@[i as int]));
        i += 1;
    }
    assert(a@.take(a.len() as int) =~= a@);
    out
}

/// A byte string with each octet lowercased.
pub fn lowercase_octets(a: &Vec<u8>) -> (r: Vec<u8>)
    ensures
        r@ == lowercased(a@),
{
    let mut out: Vec<u8> = Vec::new();
    let mut i: usize = 0;
    while i < a.len()
        invariant
            i <= a.len(),
            out@ == lowercased(a@).take(i as int),
        decreases a.len() - i,
    {
        out.push(to_lower_octet(a[i]));
        assert(lowercased(a@).take(i + 1) =~= lowercased(a@).take(i as int).push(
            lower_octet(a@[i as int]),
        ));
        i += 1;
    }
    assert(lowercased(a@).take(a.len() as int) =~= lowercased(a@));
    out
}

impl RequestKey {
    /// The key of a question: its name lowercased, its type and its class.
    pub fn from_question(q: &Question) -> (r: RequestKey)
        ensures
            r@ == key_of(q@),
    {
        let name = match &q.name {
            Some(octets) => lowercase_octets(octets),
            None => {
                assert(lowercased(Seq::<u8>::empty()) =~= Seq::<u8>::empty());
                Vec::new()
            },
        };
        RequestKey { name, rtype: q.rtype, class: q.class }
    }

    /// The key of a message: that of its first question. A message without a
    /// question has no key.
    pub fn from_message(m: &Message) -> (r: Result<RequestKey, KeyError>)
        ensures
            match first_question_of(*m) {
                Some(q) => r.is_ok() && r.unwrap()@ == key_of(q),
                None => r == Err::<RequestKey, KeyError>(KeyError::NoQueries),
            },
    {
        match first_question(m) {
            Some(q) => Ok(RequestKey::from_question(&q)),
            None => Err(KeyError::NoQueries),
        }
    }

    /// Whether the key's name is a well-formed domain name. Only a valid key
    /// may be cached under.
    pub fn valid(&self) -> (r: bool)
        ensures
            r == is_wire_name(self@.name),
    {
        if self.name.len() > 255 {
            return false;
        }
        let mut i: usize = 0;
        while i < self.name.len()
            invariant
                i <= self.name.len(),
                self.name.len() <= 255,
                labels_from(self.name@, 0) == labels_from(self.name@, i as int),
            decreases self.name.len() - i,
        {
            let len: u8 = self.name[i];
            if len == 0 {
                return i == self.name.len() - 1;
            }
            if len > 63 || i + 1 + len as usize >= self.name.len() {
                return false;
            }
            i = i + 1 + len as usize;
        }
        false
    }

    /// Whether two keys are equal: the same name, type and class.
    pub fn same_as(&self, other: &RequestKey) -> (r: bool)
        ensures
            r == (self@ == other@),
    {
        let same = self.rtype == other.rtype && self.class == other.class && same_octets(
            &self.name,
            &other.name,
        );
        proof {
            if same {
                assert(self@ == other@);
            }
        }
        same
    }

    /// A copy of the key.
    pub fn duplicate(&self) -> (r: RequestKey)
        ensures
            r@ == self@,
    {
        RequestKey { name: copy_octets(&self.name), rtype: self.rtype, class: self.class }
    }

    /// The lowercased owner name, in wire form.
    pub fn name(&self) -> (r: &Vec<u8>)
        ensures
            r@ == self@.name,
    {
        &self.name
    }

    /// The numeric record type.
    pub fn record_type(&self) -> (r: u16)
        ensures
            r == self@.rtype,
    {
        self.rtype
    }

    /// The numeric record class.
    pub fn record_class(&self) -> (r: u16)
        ensures
            r == self@.class,
    {
        self.class
    }
}

/// Two questions whose owner names are equal but for the case of their
/// letters, and whose types and classes are equal, have the same key.
pub proof fn key_ignores_case(a: QuestionView, b: QuestionView)
    requires
        lowercased(owner_octets(a)) == lowercased(owner_octets(b)),
        a.rtype == b.rtype,
        a.class == b.class,
    ensures
        key_of(a) == key_of(b),
{
}

/// Lowercasing a name twice is lowercasing it once, so a key's name is its
/// own lowercase form.
pub proof fn lowercased_is_idempotent(name: Seq<u8>)
    ensures
        lowercased(lowercased(name)) == lowercased(name),
{
    assert(lowercased(lowercased(name)) =~= lowercased(name));
}

} // verus!
