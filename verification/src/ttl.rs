//! TTL arithmetic: clamping the TTLs of an upstream response into configured
//! bounds, and counting a cached response's TTLs down by its time in cache.

use vstd::prelude::*;
use trust_dns_proto::op::Message;
use crate::message::{record_ttls, same_header, set_record_ttls, ttls_of, with_ttls};

verus! {

/// A TTL raised to at least `lo`, then lowered to at most `hi`.
pub open spec fn clamp_ttl(ttl: u32, lo: u32, hi: u32) -> u32 {
    let raised = if ttl < lo { lo } else { ttl };
    if raised > hi { hi } else { raised }
}

/// Every TTL of a sequence clamped.
pub open spec fn clamped(ttls: Seq<u32>, lo: u32, hi: u32) -> Seq<u32> {
    Seq::new(ttls.len(), |i: int| clamp_ttl(ttls[i], lo, hi))
}

/// The least TTL of a sequence; 0 for the empty sequence.
pub open spec fn min_ttl(ttls: Seq<u32>) -> u32
    decreases ttls.len(),
{
    if ttls.len() == 0 {
        0
    } else if ttls.len() == 1 {
        ttls[0]
    } else {
        let rest = min_ttl(ttls.drop_last());
        if ttls.last() < rest { ttls.last() } else { rest }
    }
}

/// Whether a response that has been `elapsed` seconds in cache can still be
/// served: no record's TTL is below `elapsed`.
pub open spec fn can_decrement(ttls: Seq<u32>, elapsed: u64) -> bool {
    forall|i: int| 0 <= i < ttls.len() ==> elapsed <= #[trigger] ttls[i]
}

/// Every TTL of a sequence lowered by `elapsed` seconds.
pub open spec fn decremented(ttls: Seq<u32>, elapsed: u64) -> Seq<u32> {
    Seq::new(ttls.len(), |i: int| (ttls[i] - elapsed) as u32)
}

/// Clamps one TTL.
pub fn clamp_one(ttl: u32, lo: u32, hi: u32) -> (r: u32)
    ensures
        r == clamp_ttl(ttl, lo, hi),
{
    let raised: u32 = if ttl < lo { lo } else { ttl };
    if raised > hi { hi } else { raised }
}

/// Clamps each TTL and gives the clamped TTLs with their minimum, which is 0
/// where there is none.
pub fn clamp_ttls(ttls: &Vec<u32>, lo: u32, hi: u32) -> (r: (Vec<u32>, u32))
    ensures
        r.0@ == clamped(ttls@, lo, hi),
        r.1 == min_ttl(clamped(ttls@, lo, hi)),
{
    let ghost goal = clamped(ttls@, lo, hi);
    let mut out: Vec<u32> = Vec::new();
    let mut least: u32 = 0;
    let mut i: usize = 0;
    while i < ttls.len()
        invariant
            i <= ttls.len(),
            goal == clamped(ttls@, lo, hi),
            out@ == goal.take(i as int),
            least == min_ttl(goal.take(i as int)),
        decreases ttls.len() - i,
    {
        let ttl: u32 = clamp_one(ttls[i], lo, hi);
        proof {
            let next = goal.take(i + 1);
            assert(next.drop_last() =~= goal.take(i as int));
            assert(next.last() == ttl);
            assert(next =~= goal.take(i as int).push(ttl));
        }
        if i == 0 || ttl < least {
            least = ttl;
        }
        out.push(ttl);
        i += 1;
    }
    assert(goal.take(ttls.len() as int) =~= goal);
    (out, least)
}

/// Lowers each TTL by `elapsed` seconds. `None` where a TTL is below
/// `elapsed`: the response is then too old to serve.
pub fn decrement_ttls(ttls: &Vec<u32>, elapsed: u64) -> (r: Option<Vec<u32>>)
    ensures
        match r {
            Some(lowered) => can_decrement(ttls@, elapsed) && lowered@ == decremented(ttls@, elapsed),
            None => !can_decrement(ttls@, elapsed),
        },
{
    let mut out: Vec<u32> = Vec::new();
    let mut i: usize = 0;
    while i < ttls.len()
        invariant
            i <= ttls.len(),
            can_decrement(ttls@.take(i as int), elapsed),
            out@ == decremented(ttls@, elapsed).take(i as int),
        decreases ttls.len() - i,
    {
        let ttl: u32 = ttls[i];
        if elapsed > ttl as u64 {
            assert(!(elapsed <= ttls@[i as int]));
            return None;
        }
        let lowered: u64 = ttl as u64 - elapsed;
        out.push(lowered as u32);
        proof {
            assert(decremented(ttls@, elapsed).take(i + 1) =~= decremented(ttls@, elapsed).take(
                i as int,
            ).push(lowered as u32));
            assert forall|j: int| 0 <= j < i + 1 implies elapsed <= #[trigger] ttls@.take(i + 1)[j] by {
                if j < i {
                    assert(ttls@.take(i as int)[j] == ttls@[j]);
                }
            }
        }
        i += 1;
    }
    assert(ttls@.take(ttls.len() as int) =~= ttls@);
    assert(decremented(ttls@, elapsed).take(ttls.len() as int) =~= decremented(ttls@, elapsed));
    Some(out)
}

/// Clamps the TTL of every record of a message's answer, authority and
/// additional sections, and gives the least clamped TTL (0 where the message
/// holds no record). Clamping is idempotent: the TTLs of the clamped message
/// are their own clamped form, and a message whose TTLs are so is left as it
/// was, so that clamping twice is clamping once. Nothing but TTLs changes:
/// id, response code and first question stay, there are as many records as
/// before, and with the old TTLs put back the message would be the old one.
pub fn clamp_and_get_min_ttl_seconds(m: &mut Message, lo: u32, hi: u32) -> (r: u32)
    ensures
        *final(m) == with_ttls(*old(m), clamped(ttls_of(*old(m)), lo, hi)),
        ttls_of(*final(m)) == clamped(ttls_of(*old(m)), lo, hi),
        r == min_ttl(clamped(ttls_of(*old(m)), lo, hi)),
        clamped(ttls_of(*final(m)), lo, hi) == ttls_of(*final(m)),
        ttls_of(*old(m)) == clamped(ttls_of(*old(m)), lo, hi) ==> *final(m) == *old(m),
        same_header(*final(m), *old(m)),
        ttls_of(*final(m)).len() == ttls_of(*old(m)).len(),
        with_ttls(*final(m), ttls_of(*old(m))) == *old(m),
{
    proof {
        clamp_is_idempotent(ttls_of(*m), lo, hi);
    }
    let ttls = record_ttls(m);
    let (bounded, least) = clamp_ttls(&ttls, lo, hi);
    set_record_ttls(m, &bounded);
    least
}

/// Lowers the TTL of every record of a message by `elapsed` seconds. Gives
/// `false`, and leaves the message as it was, where a TTL is below `elapsed`.
/// Nothing but TTLs changes.
pub fn decrement_message_ttls(m: &mut Message, elapsed: u64) -> (r: bool)
    ensures
        r == can_decrement(ttls_of(*old(m)), elapsed),
        r ==> *final(m) == with_ttls(*old(m), decremented(ttls_of(*old(m)), elapsed)),
        r ==> ttls_of(*final(m)) == decremented(ttls_of(*old(m)), elapsed),
        !r ==> *final(m) == *old(m),
        same_header(*final(m), *old(m)),
        r ==> with_ttls(*final(m), ttls_of(*old(m))) == *old(m),
{
    let ttls = record_ttls(m);
    match decrement_ttls(&ttls, elapsed) {
        Some(lowered) => {
            set_record_ttls(m, &lowered);
            true
        },
        None => false,
    }
}

/// Clamping is idempotent: a TTL that was clamped is not changed by clamping
/// it again with the same bounds.
pub proof fn clamp_is_idempotent(ttls: Seq<u32>, lo: u32, hi: u32)
    ensures
        clamped(clamped(ttls, lo, hi), lo, hi) == clamped(ttls, lo, hi),
{
    assert(clamped(clamped(ttls, lo, hi), lo, hi) =~= clamped(ttls, lo, hi));
}

/// A clamped TTL lies within the bounds, where the bounds are in order.
pub proof fn clamp_is_within_bounds(ttl: u32, lo: u32, hi: u32)
    requires
        lo <= hi,
    ensures
        lo <= clamp_ttl(ttl, lo, hi) <= hi,
{
}

/// The minimum is a member of a non-empty sequence and no member is below it.
pub proof fn min_ttl_is_least(ttls: Seq<u32>)
    requires
        ttls.len() > 0,
    ensures
        exists|i: int| 0 <= i < ttls.len() && ttls[i] == min_ttl(ttls),
        forall|i: int| 0 <= i < ttls.len() ==> min_ttl(ttls) <= ttls[i],
    decreases ttls.len(),
{
    if ttls.len() == 1 {
        assert(ttls[0] == min_ttl(ttls));
    } else {
        let rest = ttls.drop_last();
        min_ttl_is_least(rest);
        let k = choose|i: int| 0 <= i < rest.len() && rest[i] == min_ttl(rest);
        assert(ttls[k] == rest[k]);
        if ttls.last() < min_ttl(rest) {
            assert(ttls[ttls.len() - 1] == min_ttl(ttls));
        } else {
            assert(ttls[k] == min_ttl(ttls));
        }
        assert forall|i: int| 0 <= i < ttls.len() implies min_ttl(ttls) <= ttls[i] by {
            if i < rest.len() {
                assert(ttls[i] == rest[i]);
            }
        }
    }
}

/// Decrementing is monotone: the longer a response has been in cache, the
/// lower each of its records' TTLs when it is served.
pub proof fn decrement_is_monotone(ttls: Seq<u32>, earlier: u64, later: u64, i: int)
    requires
        earlier <= later,
        can_decrement(ttls, later),
        0 <= i < ttls.len(),
    ensures
        can_decrement(ttls, earlier),
        decremented(ttls, later)[i] <= decremented(ttls, earlier)[i],
{
    assert(later <= ttls[i]);
    assert forall|j: int| 0 <= j < ttls.len() implies earlier <= #[trigger] ttls[j] by {
        assert(later <= ttls[j]);
    }
}

} // verus!
